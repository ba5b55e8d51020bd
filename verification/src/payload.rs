//! What a `message` frame carries in `data`: a JSON object of its own. The
//! relay sends `from` and `message`; the client sends `message` alone and
//! leaves it to the relay to say who wrote it.

use crate::json::{
    fields_as_json, is_flat, is_scalar, is_shallow, json_of, member, member_of, members_of,
    members_of_push, object_value, parse, parse_json, print, print_json, text_value, Json,
};
use crate::wire::text_of;
use vstd::prelude::*;

verus! {

/// One chat message as the relay hands it on: who wrote it, and what.
#[derive(Debug)]
pub struct MessageData {
    pub from: String,
    pub message: String,
}

/// A chat message as a mathematical value.
pub struct MessageDataView {
    pub from: Seq<char>,
    pub message: Seq<char>,
}

impl View for MessageData {
    type V = MessageDataView;

    open spec fn view(&self) -> MessageDataView {
        MessageDataView { from: self.from@, message: self.message@ }
    }
}

/// Why the `data` of a `message` frame is not a chat message.
#[derive(Clone, Copy, Debug, PartialEq, Eq, Structural)]
pub enum InnerDecodeError {
    /// The text is not one JSON document.
    Malformed,
    /// `from` or `message` is missing, or is not a string.
    MissingField,
}

pub open spec fn key_from() -> Seq<char> {
    "from"@
}

pub open spec fn key_message() -> Seq<char> {
    "message"@
}

/// The chat message that a parsed text stands for.
pub open spec fn message_json(parsed: Option<Json>) -> Result<MessageDataView, InnerDecodeError> {
    match parsed {
        None => Err(InnerDecodeError::Malformed),
        Some(doc) => match (
            text_of(member_of(doc, key_from())),
            text_of(member_of(doc, key_message())),
        ) {
            (Some(from), Some(message)) => Ok(MessageDataView { from, message }),
            _ => Err(InnerDecodeError::MissingField),
        },
    }
}

/// The chat message that a text stands for.
pub open spec fn message_text(text: Seq<char>) -> Result<MessageDataView, InnerDecodeError> {
    message_json(parse_json(text))
}

/// A result of decoding with its message taken as a mathematical value.
pub open spec fn message_view(r: Result<MessageData, InnerDecodeError>) -> Result<
    MessageDataView,
    InnerDecodeError,
> {
    match r {
        Ok(m) => Ok(m@),
        Err(e) => Err(e),
    }
}

/// The document that the client sends for what the user typed: an object with
/// the one member `message`.
pub open spec fn outbound_json(typed: Seq<char>) -> Json {
    Json::Object(Map::<Seq<char>, Json>::empty().insert(key_message(), Json::Text(typed)))
}

/// The text that the client sends for what the user typed.
pub open spec fn outbound_text(typed: Seq<char>) -> Seq<char> {
    print_json(outbound_json(typed))
}

/// What the client sends names no sender, so it is not itself a chat message
/// that a client would accept.
pub proof fn outbound_names_no_sender(typed: Seq<char>)
    ensures
        message_json(Some(outbound_json(typed))) == Err::<MessageDataView, InnerDecodeError>(
            InnerDecodeError::MissingField,
        ),
{
    reveal_strlit("from");
    reveal_strlit("message");
    assert(key_from().len() == 4);
    assert(key_message().len() == 7);
}

/// Reads a chat message out of a parsed document.
pub fn message_from_value(doc: &serde_json::Value) -> (r: Result<MessageData, InnerDecodeError>)
    ensures
        message_view(r) == message_json(Some(json_of(*doc))),
{
    let from = match member(doc, "from") {
        Some(v) => v.as_str(),
        None => None,
    };
    let message = match member(doc, "message") {
        Some(v) => v.as_str(),
        None => None,
    };
    match (from, message) {
        (Some(from), Some(message)) => Ok(
            MessageData { from: from.to_owned(), message: message.to_owned() },
        ),
        _ => Err(InnerDecodeError::MissingField),
    }
}

/// Reads a chat message out of the `data` of a `message` frame. Fails when the
/// text is not JSON and when `from` or `message` is not there as a string.
pub fn decode_message(text: &str) -> (r: Result<MessageData, InnerDecodeError>)
    ensures
        message_view(r) == message_text(text@),
{
    match parse(text) {
        Ok(doc) => message_from_value(&doc),
        Err(_) => Err(InnerDecodeError::Malformed),
    }
}

/// Writes what the user typed as the `data` of a `message` frame.
pub fn encode_outbound(typed: &str) -> (text: String)
    ensures
        text@ == outbound_text(typed@),
        parse_json(text@) == Some(outbound_json(typed@)),
{
    let mut fields: Vec<(String, serde_json::Value)> = Vec::new();
    let ghost none = fields_as_json(fields@);
    fields.push((String::from_str("message"), text_value(typed)));
    let doc = object_value(fields);
    proof {
        assert(members_of(none) =~= Map::empty());
        assert(fields_as_json(fields@) =~= none.push((key_message(), Json::Text(typed@))));
        members_of_push(none, key_message(), Json::Text(typed@));
        let members = outbound_json(typed@)->Object_0;
        assert(members.dom().finite());
        assert forall|k: Seq<char>| members.dom().contains(k) implies is_flat(
            #[trigger] members[k],
        ) by {
            assert(is_scalar(members[k]));
        }
        assert(is_shallow(outbound_json(typed@)));
    }
    print(&doc)
}

} // verus!
