//! The boundary to `serde_json`.
//!
//! JSON text is parsed and printed by `serde_json`; nothing in this module is
//! proved about how it does so. The contracts below are stated over [`Json`],
//! a mathematical picture of a JSON document, and are believed as written.

use vstd::prelude::*;

verus! {

/// A JSON document as a mathematical value. Numbers carry no payload: no rule
/// of this library reads one.
pub enum Json {
    Null,
    Bool(bool),
    Number,
    Text(Seq<char>),
    List(Seq<Json>),
    Object(Map<Seq<char>, Json>),
}

#[verifier::external_type_specification]
#[verifier::external_body]
pub struct ExValue(serde_json::Value);

#[verifier::external_type_specification]
#[verifier::external_body]
pub struct ExError(serde_json::Error);

/// The document that a `serde_json::Value` holds.
pub uninterp spec fn json_of(v: serde_json::Value) -> Json;

/// What `serde_json::from_str` makes of a text: the document it stands for,
/// or `None` where the text is not one JSON document.
pub uninterp spec fn parse_json(text: Seq<char>) -> Option<Json>;

/// The text that `serde_json::to_string` writes for a shallow document.
pub uninterp spec fn print_json(doc: Json) -> Seq<char>;

/// Null, a boolean or a string.
pub open spec fn is_scalar(doc: Json) -> bool {
    doc is Null || doc is Bool || doc is Text
}

/// A scalar, or a list of scalars.
pub open spec fn is_flat(doc: Json) -> bool {
    ||| is_scalar(doc)
    ||| doc matches Json::List(items) && forall|i: int|
        0 <= i < items.len() ==> is_scalar(#[trigger] items[i])
}

/// A flat document, or an object with finitely many members, each of them
/// flat. Such a document holds no number and nests three levels at most.
pub open spec fn is_shallow(doc: Json) -> bool {
    ||| is_flat(doc)
    ||| doc matches Json::Object(members) && members.dom().finite() && forall|k: Seq<char>|
        members.dom().contains(k) ==> is_flat(#[trigger] members[k])
}

/// The member of an object under a key, if `doc` is an object that has one.
pub open spec fn member_of(doc: Json, key: Seq<char>) -> Option<Json> {
    match doc {
        Json::Object(members) => if members.dom().contains(key) {
            Some(members[key])
        } else {
            None
        },
        _ => None,
    }
}

/// The members that a list of key and value pairs stands for, taken pair by
/// pair from the front.
pub open spec fn members_of(fields: Seq<(Seq<char>, Json)>) -> Map<Seq<char>, Json>
    decreases fields.len(),
{
    if fields.len() == 0 {
        Map::empty()
    } else {
        members_of(fields.drop_last()).insert(fields.last().0, fields.last().1)
    }
}

/// Adding a pair at the end of a list of members adds it to the object.
pub proof fn members_of_push(fields: Seq<(Seq<char>, Json)>, key: Seq<char>, value: Json)
    ensures
        members_of(fields.push((key, value))) == members_of(fields).insert(key, value),
{
    assert(fields.push((key, value)).drop_last() =~= fields);
}

/// The documents that a list of strings becomes, one `Text` for each.
pub open spec fn texts_as_json(items: Seq<String>) -> Seq<Json> {
    Seq::new(items.len(), |i: int| Json::Text(items[i]@))
}

/// The pairs that a list of owned keys and values stands for.
pub open spec fn fields_as_json(fields: Seq<(String, serde_json::Value)>) -> Seq<(Seq<char>, Json)> {
    Seq::new(fields.len(), |i: int| (fields[i].0@, json_of(fields[i].1)))
}

/// `serde_json::from_str::<Value>`: succeeds exactly on the texts that are one
/// JSON document, and then holds that document.
#[verifier::external_body]
pub(crate) fn parse(text: &str) -> (r: Result<serde_json::Value, serde_json::Error>)
    ensures
        r is Ok <==> parse_json(text@) is Some,
        r matches Ok(v) ==> parse_json(text@) == Some(json_of(v)),
{
    serde_json::from_str::<serde_json::Value>(text)
}

/// `serde_json::to_string` on a `Value`: writing a `Value` to memory has no
/// failing step, so the text is always there. Of a shallow document the
/// contract says two things: the text depends on the document alone (members
/// are written in the order of their keys), and the parser reads it back as
/// the document that was written. Of a document with numbers in it, or a
/// deeper one, it says nothing. The first of the two holds only while
/// `serde_json` is built without its `preserve_order` feature, as it is here:
/// with that feature members are written in the order in which they were
/// put in, which the document does not record.
#[verifier::external_body]
pub(crate) fn print(v: &serde_json::Value) -> (r: String)
    ensures
        is_shallow(json_of(*v)) ==> r@ == print_json(json_of(*v)),
        is_shallow(json_of(*v)) ==> parse_json(r@) == Some(json_of(*v)),
{
    serde_json::to_string(v).unwrap_or_default()
}

/// `Value::get` with a string key: the member under that key where the value
/// is an object that has it, and nothing otherwise.
#[verifier::external_body]
pub(crate) fn member<'a>(v: &'a serde_json::Value, key: &str) -> (r: Option<&'a serde_json::Value>)
    ensures
        r is Some <==> member_of(json_of(*v), key@) is Some,
        r matches Some(m) ==> member_of(json_of(*v), key@) == Some(json_of(*m)),
{
    v.get(key)
}

/// `Value::from(&str)`: a string value with the same characters.
#[verifier::external_body]
pub(crate) fn text_value(s: &str) -> (r: serde_json::Value)
    ensures
        json_of(r) == Json::Text(s@),
{
    serde_json::Value::from(s)
}

/// `Value::from(&[String])`: an array of string values, in the same order.
#[verifier::external_body]
pub(crate) fn list_value(items: &Vec<String>) -> (r: serde_json::Value)
    ensures
        json_of(r) == Json::List(texts_as_json(items@)),
{
    serde_json::Value::from(items.as_slice())
}

/// `Value::from_iter` over pairs with pairwise different keys: an object with
/// those members.
#[verifier::external_body]
pub(crate) fn object_value(fields: Vec<(String, serde_json::Value)>) -> (r: serde_json::Value)
    requires
        forall|i: int, j: int| 0 <= i < j < fields@.len() ==> fields@[i].0@ != fields@[j].0@,
    ensures
        json_of(r) == Json::Object(members_of(fields_as_json(fields@))),
{
    serde_json::Value::from_iter(fields)
}

/// `Value::as_str`: the characters of a string value, and nothing for any
/// other kind of value.
pub assume_specification<'a>[ serde_json::Value::as_str ](v: &'a serde_json::Value) -> (r: Option<
    &'a str,
>)
    ensures
        r is Some <==> json_of(*v) is Text,
        r matches Some(s) ==> json_of(*v) == Json::Text(s@),
;

/// `Value::as_array`: the items of an array value, in order, and nothing for
/// any other kind of value.
pub assume_specification<'a>[ serde_json::Value::as_array ](v: &'a serde_json::Value) -> (r: Option<
    &'a Vec<serde_json::Value>,
>)
    ensures
        r is Some <==> json_of(*v) is List,
        r matches Some(items) ==> json_of(*v) == Json::List(
            Seq::new(items@.len(), |i: int| json_of(items@[i])),
        ),
;

} // verus!
