//! Events and tips as JSON records.
//!
//! A template reads an event as a record: its kind under `type`, and each of
//! its fields under the field's name. A tip is a record of its `name` and its
//! `content`. An event collection spells its events in the same way.

use vstd::prelude::*;
use crate::event::{tips_view, GroupEvent, GroupEventView, Tip, TipView};
use crate::json::{
    distinct_names,
    fields_model,
    items_model,
    json_list,
    json_model,
    json_number,
    json_record,
    json_text,
    record_of,
    Node,
};

verus! {

/// A tip as a template reads it: a record of its name and its content.
pub open spec fn tip_node(tip: TipView) -> Node {
    Node::Record(
        record_of(seq![("name"@, Node::Text(tip.name)), ("content"@, Node::Text(tip.content))]),
    )
}

/// A tip list as a template reads it: the tips' records in order.
pub open spec fn tips_node(tips: Seq<TipView>) -> Node {
    Node::List(tips.map_values(|tip: TipView| tip_node(tip)))
}

/// An event as a template reads it: a record of its kind, under `type`, and
/// of each of its fields under the field's name.
pub open spec fn event_node(event: GroupEventView) -> Node {
    match event {
        GroupEventView::TeamEvent { name, level_requirement, merits, team_size, location, tips } => {
            Node::Record(
                record_of(
                    seq![
                        ("type"@, Node::Text("TeamEvent"@)),
                        ("name"@, Node::Text(name)),
                        ("level_requirement"@, Node::Number(level_requirement as int)),
                        ("merits"@, Node::Number(merits as int)),
                        ("team_size"@, Node::Number(team_size as int)),
                        ("location"@, Node::Text(location)),
                        ("tips"@, tips_node(tips)),
                    ],
                ),
            )
        },
        GroupEventView::LeagueEvent {
            name,
            requirements,
            rewards,
            league_size,
            location,
            tips,
        } => {
            Node::Record(
                record_of(
                    seq![
                        ("type"@, Node::Text("LeagueEvent"@)),
                        ("name"@, Node::Text(name)),
                        ("requirements"@, Node::Text(requirements)),
                        ("rewards"@, Node::Text(rewards)),
                        ("league_size"@, Node::Number(league_size as int)),
                        ("location"@, Node::Text(location)),
                        ("tips"@, tips_node(tips)),
                    ],
                ),
            )
        },
    }
}

/// The two names of a tip's record differ.
pub proof fn lemma_tip_names_differ(fields: Seq<(Seq<char>, Node)>)
    requires
        fields.len() == 2,
        fields[0].0 == "name"@,
        fields[1].0 == "content"@,
    ensures
        distinct_names(fields),
{
    reveal_strlit("name");
    reveal_strlit("content");
    assert("name"@.len() != "content"@.len());
}

/// The seven names of an event's record differ, whichever kind the event is
/// of; and the two kinds are told apart by their names.
pub proof fn lemma_event_names_differ(fields: Seq<(Seq<char>, Node)>)
    requires
        fields.len() == 7,
        fields[0].0 == "type"@,
        fields[1].0 == "name"@,
        (fields[2].0 == "level_requirement"@ && fields[3].0 == "merits"@ && fields[4].0
            == "team_size"@) || (fields[2].0 == "requirements"@ && fields[3].0 == "rewards"@
            && fields[4].0 == "league_size"@),
        fields[5].0 == "location"@,
        fields[6].0 == "tips"@,
    ensures
        distinct_names(fields),
        "TeamEvent"@ != "LeagueEvent"@,
{
    reveal_strlit("type");
    reveal_strlit("name");
    reveal_strlit("level_requirement");
    reveal_strlit("merits");
    reveal_strlit("team_size");
    reveal_strlit("requirements");
    reveal_strlit("rewards");
    reveal_strlit("league_size");
    reveal_strlit("location");
    reveal_strlit("tips");
    reveal_strlit("TeamEvent");
    reveal_strlit("LeagueEvent");
    assert("TeamEvent"@.len() != "LeagueEvent"@.len());
    assert("type"@[0] != "name"@[0]);
    assert("name"@[0] != "tips"@[0]);
    assert("type"@[1] != "tips"@[1]);
    assert forall|i: int, j: int| 0 <= i < j < fields.len() implies (#[trigger] fields[i]).0 != (
    #[trigger] fields[j]).0 by {
        if fields[i].0.len() == fields[j].0.len() {
            assert(i <= 1 && (j == 1 || j == 6));
        }
    }
}

fn field(name: &str, value: serde_json::Value) -> (field: (String, serde_json::Value))
    ensures
        field.0@ == name@,
        field.1 == value,
{
    (name.to_owned(), value)
}

/// The JSON value of a tip.
pub fn tip_value(tip: &Tip) -> (value: serde_json::Value)
    ensures
        json_model(value) == tip_node(tip@),
{
    let mut fields: Vec<(String, serde_json::Value)> = Vec::new();
    fields.push(field("name", json_text(tip.name.clone())));
    fields.push(field("content", json_text(tip.content.clone())));
    proof {
        assert(fields_model(fields@) =~= seq![
            ("name"@, Node::Text(tip@.name)),
            ("content"@, Node::Text(tip@.content)),
        ]);
        lemma_tip_names_differ(fields_model(fields@));
    }
    json_record(fields)
}

/// The JSON value of a tip list.
pub fn tips_value(tips: &Vec<Tip>) -> (value: serde_json::Value)
    ensures
        json_model(value) == tips_node(tips_view(tips@)),
{
    let ghost all = tips_view(tips@);
    let mut items: Vec<serde_json::Value> = Vec::new();
    let mut i: usize = 0;
    while i < tips.len()
        invariant
            i <= tips.len(),
            all == tips_view(tips@),
            items.len() == i,
            forall|k: int| 0 <= k < i ==> json_model(#[trigger] items@[k]) == tip_node(all[k]),
        decreases tips.len() - i,
    {
        items.push(tip_value(&tips[i]));
        i += 1;
    }
    proof {
        assert(items_model(items@) =~= all.map_values(|tip: TipView| tip_node(tip)));
    }
    json_list(items)
}

/// The JSON value of an event.
pub fn event_value(event: &GroupEvent) -> (value: serde_json::Value)
    ensures
        json_model(value) == event_node(event@),
{
    let mut fields: Vec<(String, serde_json::Value)> = Vec::new();
    match event {
        GroupEvent::TeamEvent { name, level_requirement, merits, team_size, location, tips } => {
            fields.push(field("type", json_text("TeamEvent".to_owned())));
            fields.push(field("name", json_text(name.clone())));
            fields.push(field("level_requirement", json_number(*level_requirement)));
            fields.push(field("merits", json_number(*merits)));
            fields.push(field("team_size", json_number(*team_size)));
            fields.push(field("location", json_text(location.clone())));
            fields.push(field("tips", tips_value(tips)));
            proof {
                assert(fields_model(fields@) =~= seq![
                    ("type"@, Node::Text("TeamEvent"@)),
                    ("name"@, Node::Text(name@)),
                    ("level_requirement"@, Node::Number(*level_requirement as int)),
                    ("merits"@, Node::Number(*merits as int)),
                    ("team_size"@, Node::Number(*team_size as int)),
                    ("location"@, Node::Text(location@)),
                    ("tips"@, tips_node(tips_view(tips@))),
                ]);
            }
        },
        GroupEvent::LeagueEvent { name, requirements, rewards, league_size, location, tips } => {
            fields.push(field("type", json_text("LeagueEvent".to_owned())));
            fields.push(field("name", json_text(name.clone())));
            fields.push(field("requirements", json_text(requirements.clone())));
            fields.push(field("rewards", json_text(rewards.clone())));
            fields.push(field("league_size", json_number(*league_size)));
            fields.push(field("location", json_text(location.clone())));
            fields.push(field("tips", tips_value(tips)));
            proof {
                assert(fields_model(fields@) =~= seq![
                    ("type"@, Node::Text("LeagueEvent"@)),
                    ("name"@, Node::Text(name@)),
                    ("requirements"@, Node::Text(requirements@)),
                    ("rewards"@, Node::Text(rewards@)),
                    ("league_size"@, Node::Number(*league_size as int)),
                    ("location"@, Node::Text(location@)),
                    ("tips"@, tips_node(tips_view(tips@))),
                ]);
            }
        },
    }
    proof {
        lemma_event_names_differ(fields_model(fields@));
    }
    json_record(fields)
}

} // verus!
