//! Reading an event collection.
//!
//! A collection is a JSON list of event records. A record tells its kind
//! under `type` and has every field of that kind under the field's name: text
//! as a string, a size or level as a whole number from 0 to 255, the tips as
//! a list of records of `name` and `content`. Fields that no event has are
//! passed over, and of a field that a record writes twice the later writing
//! is the one read. A collection is read whole or not at all.

use vstd::prelude::*;
use crate::error::MenuError;
use crate::event::{events_view, tips_view, GroupEvent, GroupEventView, Tip, TipView};
use crate::json::{
    items_model,
    json_as_list,
    json_as_number,
    json_as_text,
    json_field,
    json_model,
    lemma_record_has_field,
    parse_error_detail,
    parse_json,
    parsed_json,
    Node,
};
use crate::order::all_pass;
use crate::record::{
    event_node,
    lemma_event_names_differ,
    lemma_tip_names_differ,
    tip_node,
    tips_node,
};

verus! {

/// The field of a record under `name`, if the value is a record and has it.
pub open spec fn field_of(node: Node, name: Seq<char>) -> Option<Node> {
    match node {
        Node::Record(fields) => if fields.dom().contains(name) {
            Some(fields[name])
        } else {
            None
        },
        _ => None,
    }
}

/// The text of the field under `name`, if there is such a field and it is a
/// string.
pub open spec fn text_field(node: Node, name: Seq<char>) -> Option<Seq<char>> {
    match field_of(node, name) {
        Some(Node::Text(text)) => Some(text),
        _ => None,
    }
}

/// The number of the field under `name`, if there is such a field and it is a
/// whole number from 0 to 255.
pub open spec fn byte_field(node: Node, name: Seq<char>) -> Option<u8> {
    match field_of(node, name) {
        Some(Node::Number(number)) => if 0 <= number <= 255 {
            Some(number as u8)
        } else {
            None
        },
        _ => None,
    }
}

/// The tip that a record spells, if it spells one.
pub open spec fn tip_of(node: Node) -> Option<TipView> {
    match (text_field(node, "name"@), text_field(node, "content"@)) {
        (Some(name), Some(content)) => Some(TipView { name, content }),
        _ => None,
    }
}

/// The tips that a list spells, in its order, if every item spells a tip.
pub open spec fn tips_of(node: Node) -> Option<Seq<TipView>> {
    match node {
        Node::List(items) => if all_pass(items, |item: Node| tip_of(item) is Some) {
            Some(items.map_values(|item: Node| tip_of(item).unwrap()))
        } else {
            None
        },
        _ => None,
    }
}

/// The tips of the field under `name`.
pub open spec fn tips_field(node: Node, name: Seq<char>) -> Option<Seq<TipView>> {
    match field_of(node, name) {
        Some(list) => tips_of(list),
        None => None,
    }
}

/// The team event that a record spells, its kind apart.
pub open spec fn team_event_of(node: Node) -> Option<GroupEventView> {
    match (
        text_field(node, "name"@),
        byte_field(node, "level_requirement"@),
        byte_field(node, "merits"@),
        byte_field(node, "team_size"@),
        text_field(node, "location"@),
        tips_field(node, "tips"@),
    ) {
        (
            Some(name),
            Some(level_requirement),
            Some(merits),
            Some(team_size),
            Some(location),
            Some(tips),
        ) => Some(
            GroupEventView::TeamEvent {
                name,
                level_requirement,
                merits,
                team_size,
                location,
                tips,
            },
        ),
        _ => None,
    }
}

/// The league event that a record spells, its kind apart.
pub open spec fn league_event_of(node: Node) -> Option<GroupEventView> {
    match (
        text_field(node, "name"@),
        text_field(node, "requirements"@),
        text_field(node, "rewards"@),
        byte_field(node, "league_size"@),
        text_field(node, "location"@),
        tips_field(node, "tips"@),
    ) {
        (
            Some(name),
            Some(requirements),
            Some(rewards),
            Some(league_size),
            Some(location),
            Some(tips),
        ) => Some(
            GroupEventView::LeagueEvent {
                name,
                requirements,
                rewards,
                league_size,
                location,
                tips,
            },
        ),
        _ => None,
    }
}

/// The event that a record spells, if it spells one: its `type` decides
/// which fields it must have.
pub open spec fn event_of(node: Node) -> Option<GroupEventView> {
    match text_field(node, "type"@) {
        Some(kind) => if kind == "TeamEvent"@ {
            team_event_of(node)
        } else if kind == "LeagueEvent"@ {
            league_event_of(node)
        } else {
            None
        },
        None => None,
    }
}

/// The events that a list spells, in its order, if every item spells an
/// event.
pub open spec fn events_of(node: Node) -> Option<Seq<GroupEventView>> {
    match node {
        Node::List(items) => if all_pass(items, |item: Node| event_of(item) is Some) {
            Some(items.map_values(|item: Node| event_of(item).unwrap()))
        } else {
            None
        },
        _ => None,
    }
}

/// The events that a text spells: the text must be JSON, and the JSON a list
/// of events.
pub open spec fn collection_of(text: Seq<char>) -> Option<Seq<GroupEventView>> {
    match parsed_json(text) {
        Some(node) => events_of(node),
        None => None,
    }
}

/// Reads the text of the field under `name`.
pub fn read_text_field(record: &serde_json::Value, name: &str) -> (text: Option<String>)
    ensures
        match text_field(json_model(*record), name@) {
            Some(spelled) => text matches Some(text) && text@ == spelled,
            None => text is None,
        },
{
    match json_field(record, name) {
        Some(field) => json_as_text(&field),
        None => None,
    }
}

/// Reads the number of the field under `name`.
pub fn read_byte_field(record: &serde_json::Value, name: &str) -> (number: Option<u8>)
    ensures
        number == byte_field(json_model(*record), name@),
{
    match json_field(record, name) {
        Some(field) => match json_as_number(&field) {
            Some(number) => if number <= 255 {
                Some(number as u8)
            } else {
                None
            },
            None => None,
        },
        None => None,
    }
}

/// Reads one tip.
pub fn read_tip(record: &serde_json::Value) -> (tip: Option<Tip>)
    ensures
        match tip_of(json_model(*record)) {
            Some(spelled) => tip matches Some(tip) && tip@ == spelled,
            None => tip is None,
        },
{
    let name = read_text_field(record, "name")?;
    let content = read_text_field(record, "content")?;
    Some(Tip { name, content })
}

/// Reads a list of tips.
pub fn read_tips(list: &serde_json::Value) -> (tips: Option<Vec<Tip>>)
    ensures
        match tips_of(json_model(*list)) {
            Some(spelled) => tips matches Some(tips) && tips_view(tips@) == spelled,
            None => tips is None,
        },
{
    let items = json_as_list(list)?;
    let ghost nodes = items_model(items@);
    let ghost spells_tip = |item: Node| tip_of(item) is Some;
    let mut tips: Vec<Tip> = Vec::new();
    let mut i: usize = 0;
    while i < items.len()
        invariant
            i <= items.len(),
            nodes == items_model(items@),
            json_model(*list) == Node::List(nodes),
            spells_tip == (|item: Node| tip_of(item) is Some),
            tips.len() == i,
            forall|k: int| 0 <= k < i ==> spells_tip(#[trigger] nodes[k]),
            forall|k: int| 0 <= k < i ==> (#[trigger] tips@[k])@ == tip_of(nodes[k]).unwrap(),
        decreases items.len() - i,
    {
        assert(nodes[i as int] == json_model(items@[i as int]));
        match read_tip(&items[i]) {
            Some(tip) => {
                tips.push(tip);
            },
            None => {
                assert(!spells_tip(nodes[i as int]));
                return None;
            },
        }
        i += 1;
    }
    proof {
        assert(all_pass(nodes, spells_tip));
        assert(tips_view(tips@) =~= nodes.map_values(|item: Node| tip_of(item).unwrap()));
    }
    Some(tips)
}

/// Reads the tips of the field under `name`.
pub fn read_tips_field(record: &serde_json::Value, name: &str) -> (tips: Option<Vec<Tip>>)
    ensures
        match tips_field(json_model(*record), name@) {
            Some(spelled) => tips matches Some(tips) && tips_view(tips@) == spelled,
            None => tips is None,
        },
{
    match json_field(record, name) {
        Some(list) => read_tips(&list),
        None => None,
    }
}

fn read_team_event(record: &serde_json::Value) -> (event: Option<GroupEvent>)
    ensures
        match team_event_of(json_model(*record)) {
            Some(spelled) => event matches Some(event) && event@ == spelled,
            None => event is None,
        },
{
    let name = read_text_field(record, "name")?;
    let level_requirement = read_byte_field(record, "level_requirement")?;
    let merits = read_byte_field(record, "merits")?;
    let team_size = read_byte_field(record, "team_size")?;
    let location = read_text_field(record, "location")?;
    let tips = read_tips_field(record, "tips")?;
    Some(GroupEvent::TeamEvent { name, level_requirement, merits, team_size, location, tips })
}

fn read_league_event(record: &serde_json::Value) -> (event: Option<GroupEvent>)
    ensures
        match league_event_of(json_model(*record)) {
            Some(spelled) => event matches Some(event) && event@ == spelled,
            None => event is None,
        },
{
    let name = read_text_field(record, "name")?;
    let requirements = read_text_field(record, "requirements")?;
    let rewards = read_text_field(record, "rewards")?;
    let league_size = read_byte_field(record, "league_size")?;
    let location = read_text_field(record, "location")?;
    let tips = read_tips_field(record, "tips")?;
    Some(GroupEvent::LeagueEvent { name, requirements, rewards, league_size, location, tips })
}

/// Reads one event.
pub fn read_event(record: &serde_json::Value) -> (event: Option<GroupEvent>)
    ensures
        match event_of(json_model(*record)) {
            Some(spelled) => event matches Some(event) && event@ == spelled,
            None => event is None,
        },
{
    let kind = read_text_field(record, "type")?;
    if kind == "TeamEvent".to_owned() {
        read_team_event(record)
    } else if kind == "LeagueEvent".to_owned() {
        read_league_event(record)
    } else {
        None
    }
}

/// Reads a list of events.
pub fn read_events(list: &serde_json::Value) -> (events: Option<Vec<GroupEvent>>)
    ensures
        match events_of(json_model(*list)) {
            Some(spelled) => events matches Some(events) && events_view(events@) == spelled,
            None => events is None,
        },
{
    let items = json_as_list(list)?;
    let ghost nodes = items_model(items@);
    let ghost spells_event = |item: Node| event_of(item) is Some;
    let mut events: Vec<GroupEvent> = Vec::new();
    let mut i: usize = 0;
    while i < items.len()
        invariant
            i <= items.len(),
            nodes == items_model(items@),
            json_model(*list) == Node::List(nodes),
            spells_event == (|item: Node| event_of(item) is Some),
            events.len() == i,
            forall|k: int| 0 <= k < i ==> spells_event(#[trigger] nodes[k]),
            forall|k: int| 0 <= k < i ==> (#[trigger] events@[k])@ == event_of(nodes[k]).unwrap(),
        decreases items.len() - i,
    {
        assert(nodes[i as int] == json_model(items@[i as int]));
        match read_event(&items[i]) {
            Some(event) => {
                events.push(event);
            },
            None => {
                assert(!spells_event(nodes[i as int]));
                return None;
            },
        }
        i += 1;
    }
    proof {
        assert(all_pass(nodes, spells_event));
        assert(events_view(events@) =~= nodes.map_values(|item: Node| event_of(item).unwrap()));
    }
    Some(events)
}

/// Loads an event collection from its text. The events come in the order of
/// the text. A text that is no JSON, that is no list, or in which any record
/// lacks a field or has one of the wrong kind, is refused whole.
pub fn load_json_data(text: &str) -> (result: Result<Vec<GroupEvent>, MenuError>)
    ensures
        match collection_of(text@) {
            Some(spelled) => result matches Ok(events) && events_view(events@) == spelled,
            None => result matches Err(MenuError::LoadError { .. }),
        },
{
    match parse_json(text) {
        Ok(list) => match read_events(&list) {
            Some(events) => Ok(events),
            None => Err(
                MenuError::LoadError {
                    detail: "the collection is not a list of well-formed events".to_owned(),
                },
            ),
        },
        Err(error) => Err(MenuError::LoadError { detail: parse_error_detail(&error) }),
    }
}

/// A tip written as a record reads back as the same tip.
pub proof fn lemma_tip_reads_back(tip: TipView)
    ensures
        tip_of(tip_node(tip)) == Some(tip),
{
    let fields = seq![("name"@, Node::Text(tip.name)), ("content"@, Node::Text(tip.content))];
    lemma_tip_names_differ(fields);
    lemma_record_has_field(fields, 0);
    lemma_record_has_field(fields, 1);
}

/// A tip list written as a list of records reads back as the same list.
pub proof fn lemma_tips_read_back(tips: Seq<TipView>)
    ensures
        tips_of(tips_node(tips)) == Some(tips),
{
    let items = tips.map_values(|tip: TipView| tip_node(tip));
    assert forall|i: int| 0 <= i < items.len() implies tip_of(#[trigger] items[i]) == Some(
        tips[i],
    ) by {
        lemma_tip_reads_back(tips[i]);
    }
    assert(items.map_values(|item: Node| tip_of(item).unwrap()) =~= tips);
}

/// An event written as a record reads back as the same event. So what a
/// template is given under `content` spells the event in full.
pub proof fn lemma_event_reads_back(event: GroupEventView)
    ensures
        event_of(event_node(event)) == Some(event),
{
    match event {
        GroupEventView::TeamEvent { name, level_requirement, merits, team_size, location, tips } => {
            let fields = seq![
                ("type"@, Node::Text("TeamEvent"@)),
                ("name"@, Node::Text(name)),
                ("level_requirement"@, Node::Number(level_requirement as int)),
                ("merits"@, Node::Number(merits as int)),
                ("team_size"@, Node::Number(team_size as int)),
                ("location"@, Node::Text(location)),
                ("tips"@, tips_node(tips)),
            ];
            lemma_event_names_differ(fields);
            lemma_record_has_field(fields, 0);
            lemma_record_has_field(fields, 1);
            lemma_record_has_field(fields, 2);
            lemma_record_has_field(fields, 3);
            lemma_record_has_field(fields, 4);
            lemma_record_has_field(fields, 5);
            lemma_record_has_field(fields, 6);
            lemma_tips_read_back(tips);
        },
        GroupEventView::LeagueEvent {
            name,
            requirements,
            rewards,
            league_size,
            location,
            tips,
        } => {
            let fields = seq![
                ("type"@, Node::Text("LeagueEvent"@)),
                ("name"@, Node::Text(name)),
                ("requirements"@, Node::Text(requirements)),
                ("rewards"@, Node::Text(rewards)),
                ("league_size"@, Node::Number(league_size as int)),
                ("location"@, Node::Text(location)),
                ("tips"@, tips_node(tips)),
            ];
            lemma_event_names_differ(fields);
            lemma_record_has_field(fields, 0);
            lemma_record_has_field(fields, 1);
            lemma_record_has_field(fields, 2);
            lemma_record_has_field(fields, 3);
            lemma_record_has_field(fields, 4);
            lemma_record_has_field(fields, 5);
            lemma_record_has_field(fields, 6);
            lemma_tips_read_back(tips);
        },
    }
}

} // verus!
