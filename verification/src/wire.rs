//! The envelope exchanged with the relay: one JSON object per frame, with the
//! members `messageType`, `dataArray` and `data`.

use crate::json::{
    fields_as_json, is_flat, is_scalar, is_shallow, json_of, list_value, member, member_of,
    members_of, members_of_push, object_value, parse, parse_json, print, print_json, text_value,
    texts_as_json, Json,
};
use vstd::prelude::*;

verus! {

/// The kinds of frame. The set is closed: a frame of any other kind does not
/// decode.
#[derive(Clone, Copy, Debug, PartialEq, Eq, Structural)]
pub enum MsgTypes {
    Users,
    Register,
    Message,
}

/// Why a text is not a frame.
#[derive(Clone, Copy, Debug, PartialEq, Eq, Structural)]
pub enum DecodeError {
    /// The text is not one JSON document.
    Malformed,
    /// `messageType` is missing, or is not one of the three kinds.
    UnknownKind,
    /// The payload that the kind calls for is missing or of another shape.
    MissingPayload,
}

/// A frame. `Users` carries `data_array`; `Register` and `Message` carry
/// `data`. A frame is valid when it holds the payload of its kind and not the
/// other one.
#[derive(Debug)]
pub struct WireMessage {
    pub message_type: MsgTypes,
    pub data_array: Option<Vec<String>>,
    pub data: Option<String>,
}

/// A frame as a mathematical value.
pub struct WireMessageView {
    pub message_type: MsgTypes,
    pub data_array: Option<Seq<Seq<char>>>,
    pub data: Option<Seq<char>>,
}

/// The character sequences of a list of strings.
pub open spec fn texts(items: Seq<String>) -> Seq<Seq<char>> {
    Seq::new(items.len(), |i: int| items[i]@)
}

impl View for WireMessage {
    type V = WireMessageView;

    open spec fn view(&self) -> WireMessageView {
        WireMessageView {
            message_type: self.message_type,
            data_array: match self.data_array {
                Some(items) => Some(texts(items@)),
                None => None,
            },
            data: match self.data {
                Some(s) => Some(s@),
                None => None,
            },
        }
    }
}

impl WireMessageView {
    /// Exactly the payload of the kind is there.
    pub open spec fn valid(self) -> bool {
        match self.message_type {
            MsgTypes::Users => self.data_array is Some && self.data is None,
            MsgTypes::Register | MsgTypes::Message => self.data is Some && self.data_array is None,
        }
    }
}

pub open spec fn key_kind() -> Seq<char> {
    "messageType"@
}

pub open spec fn key_list() -> Seq<char> {
    "dataArray"@
}

pub open spec fn key_data() -> Seq<char> {
    "data"@
}

impl MsgTypes {
    /// The lowercase word that stands for the kind on the wire.
    pub open spec fn literal(self) -> Seq<char> {
        match self {
            MsgTypes::Users => "users"@,
            MsgTypes::Register => "register"@,
            MsgTypes::Message => "message"@,
        }
    }

    /// The kind that a word stands for, if it is one of the three.
    pub open spec fn from_literal(word: Seq<char>) -> Option<MsgTypes> {
        if word == "users"@ {
            Some(MsgTypes::Users)
        } else if word == "register"@ {
            Some(MsgTypes::Register)
        } else if word == "message"@ {
            Some(MsgTypes::Message)
        } else {
            None
        }
    }

    pub fn as_str(&self) -> (word: &'static str)
        ensures
            word@ == self.literal(),
    {
        match self {
            MsgTypes::Users => "users",
            MsgTypes::Register => "register",
            MsgTypes::Message => "message",
        }
    }

    pub fn from_str(word: &str) -> (kind: Option<MsgTypes>)
        ensures
            kind == Self::from_literal(word@),
    {
        if same_text(word, "users") {
            Some(MsgTypes::Users)
        } else if same_text(word, "register") {
            Some(MsgTypes::Register)
        } else if same_text(word, "message") {
            Some(MsgTypes::Message)
        } else {
            None
        }
    }

    /// Every kind is read back from its own word.
    pub proof fn literal_reads_back(self)
        ensures
            Self::from_literal(self.literal()) == Some(self),
    {
        reveal_strlit("users");
        reveal_strlit("register");
        reveal_strlit("message");
        assert("users"@.len() == 5);
        assert("register"@.len() == 8);
        assert("message"@.len() == 7);
    }
}

/// Whether two texts hold the same characters.
pub fn same_text(a: &str, b: &str) -> (same: bool)
    ensures
        same == (a@ == b@),
{
    let left = a.to_owned();
    let right = b.to_owned();
    left.eq(&right)
}

/// The characters of a document that is a string.
pub open spec fn text_of(doc: Option<Json>) -> Option<Seq<char>> {
    match doc {
        Some(Json::Text(s)) => Some(s),
        _ => None,
    }
}

/// The items of a document that is a list of strings.
pub open spec fn texts_of(doc: Option<Json>) -> Option<Seq<Seq<char>>> {
    match doc {
        Some(Json::List(items)) => if forall|i: int|
            0 <= i < items.len() ==> #[trigger] items[i] is Text {
            Some(Seq::new(items.len(), |i: int| items[i]->Text_0))
        } else {
            None
        },
        _ => None,
    }
}

/// The kind that a document names under `messageType`.
pub open spec fn kind_of(doc: Json) -> Option<MsgTypes> {
    match text_of(member_of(doc, key_kind())) {
        Some(word) => MsgTypes::from_literal(word),
        None => None,
    }
}

/// The frame that a parsed text stands for. The payload of another kind, if
/// the document happens to hold one, is not read.
pub open spec fn decode_json(parsed: Option<Json>) -> Result<WireMessageView, DecodeError> {
    match parsed {
        None => Err(DecodeError::Malformed),
        Some(doc) => match kind_of(doc) {
            None => Err(DecodeError::UnknownKind),
            Some(MsgTypes::Users) => match texts_of(member_of(doc, key_list())) {
                Some(items) => Ok(
                    WireMessageView {
                        message_type: MsgTypes::Users,
                        data_array: Some(items),
                        data: None,
                    },
                ),
                None => Err(DecodeError::MissingPayload),
            },
            Some(kind) => match text_of(member_of(doc, key_data())) {
                Some(s) => Ok(
                    WireMessageView { message_type: kind, data_array: None, data: Some(s) },
                ),
                None => Err(DecodeError::MissingPayload),
            },
        },
    }
}

/// The frame that a text stands for.
pub open spec fn decode_text(text: Seq<char>) -> Result<WireMessageView, DecodeError> {
    decode_json(parse_json(text))
}

/// The list of strings as a document.
pub open spec fn list_json(items: Seq<Seq<char>>) -> Json {
    Json::List(Seq::new(items.len(), |i: int| Json::Text(items[i])))
}

/// The members of the object that stands for a frame: the kind always, and
/// each payload that is there. An absent payload gets no member.
pub open spec fn encode_members(m: WireMessageView) -> Map<Seq<char>, Json> {
    let kind = Map::<Seq<char>, Json>::empty().insert(key_kind(), Json::Text(m.message_type.literal()));
    let list = match m.data_array {
        Some(items) => kind.insert(key_list(), list_json(items)),
        None => kind,
    };
    match m.data {
        Some(s) => list.insert(key_data(), Json::Text(s)),
        None => list,
    }
}

/// The document that stands for a frame.
pub open spec fn encode_json(m: WireMessageView) -> Json {
    Json::Object(encode_members(m))
}

/// The text of a frame.
pub open spec fn encode_text(m: WireMessageView) -> Seq<char> {
    print_json(encode_json(m))
}

/// A result of decoding with its frame taken as a mathematical value.
pub open spec fn decoded_view(r: Result<WireMessage, DecodeError>) -> Result<
    WireMessageView,
    DecodeError,
> {
    match r {
        Ok(m) => Ok(m@),
        Err(e) => Err(e),
    }
}

/// The three member names are pairwise different.
pub proof fn keys_differ()
    ensures
        key_kind() != key_list(),
        key_kind() != key_data(),
        key_list() != key_data(),
{
    reveal_strlit("messageType");
    reveal_strlit("dataArray");
    reveal_strlit("data");
    assert(key_kind().len() == 11);
    assert(key_list().len() == 9);
    assert(key_data().len() == 4);
}

/// Decoding the document of a valid frame gives the frame back.
pub proof fn decode_inverts_encode(m: WireMessageView)
    requires
        m.valid(),
    ensures
        decode_json(Some(encode_json(m))) == Ok::<WireMessageView, DecodeError>(m),
{
    keys_differ();
    m.message_type.literal_reads_back();
    let doc = encode_json(m);
    assert(member_of(doc, key_kind()) == Some(Json::Text(m.message_type.literal())));
    assert(kind_of(doc) == Some(m.message_type));
    match m.message_type {
        MsgTypes::Users => {
            let items = m.data_array->Some_0;
            assert(member_of(doc, key_list()) == Some(list_json(items)));
            assert(texts_of(Some(list_json(items))) == Some(items)) by {
                let docs = list_json(items)->List_0;
                assert(forall|i: int| 0 <= i < docs.len() ==> #[trigger] docs[i] is Text);
                assert(Seq::new(docs.len(), |i: int| docs[i]->Text_0) =~= items);
            }
        },
        _ => {
            assert(member_of(doc, key_data()) == Some(Json::Text(m.data->Some_0)));
        },
    }
}

/// A document whose `messageType` is missing, is no string, or is a word
/// other than the three kinds stands for no frame, whatever else it holds.
pub proof fn unknown_kind_is_refused(doc: Json)
    requires
        match member_of(doc, key_kind()) {
            Some(Json::Text(word)) => word != "users"@ && word != "register"@ && word
                != "message"@,
            _ => true,
        },
    ensures
        decode_json(Some(doc)) == Err::<WireMessageView, DecodeError>(DecodeError::UnknownKind),
{
}

/// Whatever decodes is a whole frame: it holds the payload of its kind and
/// not the other one.
pub proof fn decoded_is_valid(parsed: Option<Json>)
    ensures
        decode_json(parsed) matches Ok(m) ==> m.valid(),
{
}

/// The document of a frame holds no number and nests no deeper than a list
/// inside an object.
pub proof fn encoded_is_shallow(m: WireMessageView)
    ensures
        is_shallow(encode_json(m)),
{
    let members = encode_members(m);
    assert(members.dom().finite());
    assert forall|k: Seq<char>| members.dom().contains(k) implies is_flat(#[trigger] members[k]) by {
        if m.data is Some && k == key_data() {
            assert(is_scalar(members[k]));
        } else if m.data_array is Some && k == key_list() {
            let docs = list_json(m.data_array->Some_0)->List_0;
            assert(forall|i: int| 0 <= i < docs.len() ==> is_scalar(#[trigger] docs[i]));
        } else {
            assert(is_scalar(members[k]));
        }
    }
}

/// Writes a frame as text: a JSON object with `messageType` and whichever of
/// `dataArray` and `data` the frame holds. Decoding the text of a valid frame
/// gives the frame back.
pub fn encode(m: &WireMessage) -> (text: String)
    ensures
        text@ == encode_text(m@),
        parse_json(text@) == Some(encode_json(m@)),
        m@.valid() ==> decode_text(text@) == Ok::<WireMessageView, DecodeError>(m@),
{
    let mut fields: Vec<(String, serde_json::Value)> = Vec::new();
    let ghost none = fields_as_json(fields@);
    assert(members_of(none) =~= Map::empty());
    fields.push((String::from_str("messageType"), text_value(m.message_type.as_str())));
    let ghost kind = fields_as_json(fields@);
    proof {
        assert(kind =~= none.push((key_kind(), Json::Text(m@.message_type.literal()))));
        members_of_push(none, key_kind(), Json::Text(m@.message_type.literal()));
    }
    match &m.data_array {
        Some(items) => {
            fields.push((String::from_str("dataArray"), list_value(items)));
            proof {
                assert(texts_as_json(items@) =~= list_json(texts(items@))->List_0);
                assert(fields_as_json(fields@) =~= kind.push(
                    (key_list(), list_json(texts(items@))),
                ));
                members_of_push(kind, key_list(), list_json(texts(items@)));
            }
        },
        None => {},
    }
    let ghost list = fields_as_json(fields@);
    match &m.data {
        Some(s) => {
            fields.push((String::from_str("data"), text_value(s.as_str())));
            proof {
                assert(fields_as_json(fields@) =~= list.push((key_data(), Json::Text(s@))));
                members_of_push(list, key_data(), Json::Text(s@));
            }
        },
        None => {},
    }
    proof {
        keys_differ();
        let pairs = fields_as_json(fields@);
        assert forall|i: int, j: int| 0 <= i < j < fields@.len() implies fields@[i].0@
            != fields@[j].0@ by {
            assert(pairs[i].0 == fields@[i].0@ && pairs[j].0 == fields@[j].0@);
        }
    }
    let doc = object_value(fields);
    proof {
        assert(json_of(doc) == encode_json(m@));
        encoded_is_shallow(m@);
        if m@.valid() {
            decode_inverts_encode(m@);
        }
    }
    print(&doc)
}

/// Reads a list of strings out of a value: every item of an array whose items
/// are all strings, and nothing for any other value.
pub fn read_texts(v: &serde_json::Value) -> (r: Option<Vec<String>>)
    ensures
        match r {
            Some(items) => texts_of(Some(json_of(*v))) == Some(texts(items@)),
            None => texts_of(Some(json_of(*v))) is None,
        },
{
    let items = match v.as_array() {
        Some(items) => items,
        None => {
            return None;
        },
    };
    let ghost docs = Seq::new(items@.len(), |i: int| json_of(items@[i]));
    let mut out: Vec<String> = Vec::new();
    let mut i: usize = 0;
    while i < items.len()
        invariant
            i <= items.len(),
            out@.len() == i,
            docs == Seq::new(items@.len(), |i: int| json_of(items@[i])),
            json_of(*v) == Json::List(docs),
            forall|j: int| 0 <= j < i ==> #[trigger] docs[j] == Json::Text(out@[j]@),
        decreases items.len() - i,
    {
        match items[i].as_str() {
            Some(s) => {
                out.push(s.to_owned());
            },
            None => {
                assert(!(docs[i as int] is Text));
                return None;
            },
        }
        i += 1;
    }
    proof {
        assert(forall|j: int| 0 <= j < docs.len() ==> #[trigger] docs[j] is Text);
        assert(Seq::new(docs.len(), |i: int| docs[i]->Text_0) =~= texts(out@));
    }
    Some(out)
}

/// Reads a frame out of a parsed document.
pub fn decode_value(doc: &serde_json::Value) -> (r: Result<WireMessage, DecodeError>)
    ensures
        decoded_view(r) == decode_json(Some(json_of(*doc))),
{
    let kind = match member(doc, "messageType") {
        Some(word) => match word.as_str() {
            Some(s) => MsgTypes::from_str(s),
            None => None,
        },
        None => None,
    };
    match kind {
        None => Err(DecodeError::UnknownKind),
        Some(MsgTypes::Users) => {
            let items = match member(doc, "dataArray") {
                Some(list) => read_texts(list),
                None => None,
            };
            match items {
                Some(items) => Ok(
                    WireMessage { message_type: MsgTypes::Users, data_array: Some(items), data: None },
                ),
                None => Err(DecodeError::MissingPayload),
            }
        },
        Some(kind) => {
            let data = match member(doc, "data") {
                Some(d) => d.as_str(),
                None => None,
            };
            match data {
                Some(s) => Ok(
                    WireMessage { message_type: kind, data_array: None, data: Some(s.to_owned()) },
                ),
                None => Err(DecodeError::MissingPayload),
            }
        },
    }
}

/// Reads a frame out of a text. Fails when the text is not JSON, when
/// `messageType` is not one of the three kinds, and when the payload that the
/// kind calls for is not there.
pub fn decode(text: &str) -> (r: Result<WireMessage, DecodeError>)
    ensures
        decoded_view(r) == decode_text(text@),
{
    match parse(text) {
        Ok(doc) => decode_value(&doc),
        Err(_) => Err(DecodeError::Malformed),
    }
}

} // verus!
