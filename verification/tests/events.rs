use lfg_menus::error::{MenuError, Stage};
use lfg_menus::event::{GroupEvent, Tip};
use lfg_menus::partition::partition_by_level;

fn tip(name: &str, content: &str) -> Tip {
    Tip { name: name.to_string(), content: content.to_string() }
}

fn team(name: &str, level: u8) -> GroupEvent {
    GroupEvent::TeamEvent {
        name: name.to_string(),
        level_requirement: level,
        merits: 6,
        team_size: 8,
        location: "Atlas Park".to_string(),
        tips: Vec::new(),
    }
}

fn league(name: &str) -> GroupEvent {
    GroupEvent::LeagueEvent {
        name: name.to_string(),
        requirements: "Level 50".to_string(),
        rewards: "Empyrean Merit".to_string(),
        league_size: 24,
        location: "Pocket D".to_string(),
        tips: vec![tip("Stay Together", "Follow the leader")],
    }
}

fn names(events: &Vec<GroupEvent>) -> Vec<String> {
    let mut out = Vec::new();
    for event in events {
        match event {
            GroupEvent::TeamEvent { name, .. } => out.push(name.clone()),
            GroupEvent::LeagueEvent { name, .. } => out.push(name.clone()),
        }
    }
    out
}

#[test]
fn compare_below_threshold_is_negative() {
    assert_eq!(team("Posi 1", 8).compare_level_requirement(&36), Ok(-1));
    assert_eq!(team("Zero", 0).compare_level_requirement(&1), Ok(-1));
    assert_eq!(team("Almost", 35).compare_level_requirement(&36), Ok(-1));
}

#[test]
fn compare_at_threshold_is_positive() {
    assert_eq!(team("Exactly", 36).compare_level_requirement(&36), Ok(1));
    assert_eq!(team("Top", 255).compare_level_requirement(&255), Ok(1));
}

#[test]
fn compare_above_threshold_is_positive() {
    assert_eq!(team("ITF", 50).compare_level_requirement(&36), Ok(1));
    assert_eq!(team("Top", 255).compare_level_requirement(&254), Ok(1));
}

#[test]
fn compare_with_zero_threshold_is_a_plain_comparison() {
    assert_eq!(team("Zero", 0).compare_level_requirement(&0), Ok(1));
    assert_eq!(team("One", 1).compare_level_requirement(&0), Ok(1));
    assert_eq!(team("Top", 255).compare_level_requirement(&0), Ok(1));
}

#[test]
fn compare_refuses_league_event() {
    assert_eq!(league("Hamidon").compare_level_requirement(&36), Err(MenuError::InvalidVariant));
    assert_eq!(league("Hamidon").compare_level_requirement(&0), Err(MenuError::InvalidVariant));
}

#[test]
fn get_tips_of_team_event() {
    let event = GroupEvent::TeamEvent {
        name: "DFB".to_string(),
        level_requirement: 1,
        merits: 0,
        team_size: 4,
        location: "Sewers".to_string(),
        tips: vec![tip("A", "first"), tip("B", "second")],
    };
    assert_eq!(event.get_tips(), &vec![tip("A", "first"), tip("B", "second")]);
}

#[test]
fn get_tips_of_league_event() {
    assert_eq!(league("Hamidon").get_tips(), &vec![tip("Stay Together", "Follow the leader")]);
}

#[test]
fn get_tips_may_be_empty() {
    assert!(team("Posi 1", 8).get_tips().is_empty());
}

#[test]
fn partition_splits_at_threshold_and_keeps_order() {
    let events = vec![
        team("e50", 50),
        team("e8", 8),
        team("e36", 36),
        team("e35", 35),
        team("e0", 0),
        team("e40", 40),
    ];
    let (low, high) = partition_by_level(events, 36).unwrap();
    assert_eq!(names(&low), vec!["e8", "e35", "e0"]);
    assert_eq!(names(&high), vec!["e50", "e36", "e40"]);
}

#[test]
fn partition_keeps_every_event_once() {
    let events = vec![team("a", 10), team("b", 60), team("a", 10), team("c", 36), team("b", 60)];
    let (low, high) = partition_by_level(events.clone(), 36).unwrap();
    assert_eq!(low.len() + high.len(), events.len());
    let mut all = names(&low);
    all.extend(names(&high));
    all.sort();
    let mut given = names(&events);
    given.sort();
    assert_eq!(all, given);
    assert_eq!(low, vec![team("a", 10), team("a", 10)]);
    assert_eq!(high, vec![team("b", 60), team("c", 36), team("b", 60)]);
}

#[test]
fn partition_with_zero_threshold_puts_all_high() {
    let events = vec![team("e0", 0), team("e1", 1), team("e255", 255)];
    let (low, high) = partition_by_level(events, 0).unwrap();
    assert!(low.is_empty());
    assert_eq!(names(&high), vec!["e0", "e1", "e255"]);
}

#[test]
fn partition_with_top_threshold_puts_all_but_top_low() {
    let events = vec![team("e0", 0), team("e255", 255), team("e254", 254)];
    let (low, high) = partition_by_level(events, 255).unwrap();
    assert_eq!(names(&low), vec!["e0", "e254"]);
    assert_eq!(names(&high), vec!["e255"]);
}

#[test]
fn partition_of_nothing_is_two_empty_groups() {
    let (low, high) = partition_by_level(Vec::new(), 36).unwrap();
    assert!(low.is_empty());
    assert!(high.is_empty());
}

#[test]
fn partition_refuses_league_event() {
    let events = vec![team("a", 10), league("Hamidon"), team("b", 60)];
    assert_eq!(partition_by_level(events, 36), Err(MenuError::InvalidVariant));
    assert_eq!(partition_by_level(vec![league("Hamidon")], 0), Err(MenuError::InvalidVariant));
}

#[test]
fn every_error_has_its_stage() {
    assert_eq!(MenuError::LoadError { detail: "eof".to_string() }.stage(), Stage::Load);
    assert_eq!(MenuError::InvalidVariant.stage(), Stage::Partition);
    assert_eq!(MenuError::InvalidTipName { name: " ".to_string() }.stage(), Stage::TipMacros);
    assert_eq!(
        MenuError::TemplateRenderError { template: "t".to_string(), detail: "d".to_string() }
            .stage(),
        Stage::Render
    );
    assert_eq!(MenuError::WriteError { detail: "full".to_string() }.stage(), Stage::Write);
}
