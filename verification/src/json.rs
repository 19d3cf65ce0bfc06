//! JSON values, as the event collections spell them and as a template reads
//! them.
//!
//! The values themselves belong to `serde_json`, which also reads them from
//! text. This module names what such a value holds, builds the four forms
//! that the menus need, and takes apart the forms that an event collection is
//! made of.

use vstd::prelude::*;

verus! {

/// What a JSON value holds.
pub enum Node {
    /// The value `null`.
    Null,
    /// `true` or `false`.
    Bool(bool),
    /// A whole number that fits in 64 bits, signed or unsigned.
    Number(int),
    /// Any other number. Its value is not told.
    Real,
    /// A string.
    Text(Seq<char>),
    /// An ordered list of values.
    List(Seq<Node>),
    /// Named fields; each name occurs once.
    Record(Map<Seq<char>, Node>),
}

/// `serde_json::Value`, a JSON value. It is carried as it is; what it holds
/// is told by `json_model`.
#[verifier::external_type_specification]
#[verifier::external_body]
pub struct ExJsonValue(serde_json::Value);

/// `serde_json::Error`, the failure to read a text as JSON. It is carried as
/// it is.
#[verifier::external_type_specification]
#[verifier::external_body]
pub struct ExJsonError(serde_json::Error);

/// What a `serde_json::Value` holds: `Null` and `Bool` as they are; a
/// `Number` as `Number` when it is held as an integer and as `Real` when it
/// is held as a float; a `String` as `Text`; an `Array` as the `List` of what
/// its items hold; an `Object` as the `Record` of what its fields hold.
pub uninterp spec fn json_model(value: serde_json::Value) -> Node;

/// What `serde_json::from_str` reads from a text: the JSON value that the
/// whole text spells, or nothing when it spells none. Where an object writes
/// a name more than once, the value holds the last writing.
pub uninterp spec fn parsed_json(text: Seq<char>) -> Option<Node>;

/// The fields of a record written as a list of pairs. Were a name to occur
/// more than once, it would keep the value written last.
pub open spec fn record_of(fields: Seq<(Seq<char>, Node)>) -> Map<Seq<char>, Node>
    decreases fields.len(),
{
    if fields.len() == 0 {
        Map::empty()
    } else {
        record_of(fields.drop_last()).insert(fields.last().0, fields.last().1)
    }
}

/// No name occurs twice among the fields.
pub open spec fn distinct_names(fields: Seq<(Seq<char>, Node)>) -> bool {
    forall|i: int, j: int|
        0 <= i < j < fields.len() ==> (#[trigger] fields[i]).0 != (#[trigger] fields[j]).0
}

/// A record written with different names has each field as it was written.
pub proof fn lemma_record_has_field(fields: Seq<(Seq<char>, Node)>, place: int)
    requires
        distinct_names(fields),
        0 <= place < fields.len(),
    ensures
        record_of(fields).dom().contains(fields[place].0),
        record_of(fields)[fields[place].0] == fields[place].1,
    decreases fields.len(),
{
    if place < fields.len() - 1 {
        let head = fields.drop_last();
        assert(head[place] == fields[place]);
        assert(fields[place].0 != fields[fields.len() - 1].0);
        assert forall|i: int, j: int| 0 <= i < j < head.len() implies (#[trigger] head[i]).0 != (
        #[trigger] head[j]).0 by {
            assert(head[i] == fields[i] && head[j] == fields[j]);
        }
        lemma_record_has_field(head, place);
    }
}

/// The named values of a list of pairs, each value by what it holds.
pub open spec fn fields_model(fields: Seq<(String, serde_json::Value)>) -> Seq<(Seq<char>, Node)> {
    fields.map_values(|field: (String, serde_json::Value)| (field.0@, json_model(field.1)))
}

/// The values of a list, each by what it holds.
pub open spec fn items_model(items: Seq<serde_json::Value>) -> Seq<Node> {
    items.map_values(|item: serde_json::Value| json_model(item))
}

/// `serde_json::Value::from` on a `String`: the JSON string with that text.
#[verifier::external_body]
pub(crate) fn json_text(text: String) -> (value: serde_json::Value)
    ensures
        json_model(value) == Node::Text(text@),
{
    serde_json::Value::from(text)
}

/// `serde_json::Value::from` on a `u8`: the JSON number with that value.
#[verifier::external_body]
pub(crate) fn json_number(number: u8) -> (value: serde_json::Value)
    ensures
        json_model(value) == Node::Number(number as int),
{
    serde_json::Value::from(number)
}

/// `serde_json::Value::from` on a `Vec` of values: the JSON array of the
/// same values in the same order.
#[verifier::external_body]
pub(crate) fn json_list(items: Vec<serde_json::Value>) -> (value: serde_json::Value)
    ensures
        json_model(value) == Node::List(items_model(items@)),
{
    serde_json::Value::from(items)
}

/// `serde_json::Value::from_iter` on pairs of a name and a value: the JSON
/// object with those fields. It is only asked for fields of different names.
#[verifier::external_body]
pub(crate) fn json_record(fields: Vec<(String, serde_json::Value)>) -> (value: serde_json::Value)
    requires
        distinct_names(fields_model(fields@)),
    ensures
        json_model(value) == Node::Record(record_of(fields_model(fields@))),
{
    fields.into_iter().collect()
}

/// `serde_json::from_str` for a `Value`: reads the whole text as one JSON
/// value, and fails when the text is no JSON or goes on after the value.
#[verifier::external_body]
pub(crate) fn parse_json(text: &str) -> (outcome: Result<serde_json::Value, serde_json::Error>)
    ensures
        match outcome {
            Ok(value) => parsed_json(text@) == Some(json_model(value)),
            Err(_) => parsed_json(text@) is None,
        },
{
    serde_json::from_str::<serde_json::Value>(text)
}

/// The message of a `serde_json::Error`, which tells what was wrong and
/// where. Nothing is claimed of the text.
#[verifier::external_body]
pub(crate) fn parse_error_detail(error: &serde_json::Error) -> (detail: String) {
    format!("{}", error)
}

/// `serde_json::Value::as_str`: the text of a JSON string, and nothing for
/// any other value.
#[verifier::external_body]
pub(crate) fn json_as_text(value: &serde_json::Value) -> (text: Option<String>)
    ensures
        match text {
            Some(text) => json_model(*value) == Node::Text(text@),
            None => !(json_model(*value) is Text),
        },
{
    value.as_str().map(str::to_owned)
}

/// `serde_json::Value::as_u64`: the value of a JSON number that is whole, not
/// negative and fits in 64 bits, and nothing for any other value.
#[verifier::external_body]
pub(crate) fn json_as_number(value: &serde_json::Value) -> (number: Option<u64>)
    ensures
        match number {
            Some(number) => json_model(*value) == Node::Number(number as int),
            None => !(json_model(*value) matches Node::Number(n) && 0 <= n <= u64::MAX),
        },
{
    value.as_u64()
}

/// `serde_json::Value::as_array`: the items of a JSON array in their order,
/// and nothing for any other value.
#[verifier::external_body]
pub(crate) fn json_as_list(value: &serde_json::Value) -> (items: Option<Vec<serde_json::Value>>)
    ensures
        match items {
            Some(items) => json_model(*value) == Node::List(items_model(items@)),
            None => !(json_model(*value) is List),
        },
{
    value.as_array().cloned()
}

/// `serde_json::Value::get` with a name: the field of that name in a JSON
/// object, and nothing when the value is no object or has no such field.
#[verifier::external_body]
pub(crate) fn json_field(value: &serde_json::Value, name: &str) -> (field: Option<serde_json::Value>)
    ensures
        match field {
            Some(field) => json_model(*value) matches Node::Record(fields) && fields.dom().contains(
                name@,
            ) && fields[name@] == json_model(field),
            None => !(json_model(*value) matches Node::Record(fields) && fields.dom().contains(
                name@,
            )),
        },
{
    value.get(name).cloned()
}

} // verus!
