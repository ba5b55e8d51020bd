use yewchat::wire::{decode, decode_value, encode, read_texts, same_text, DecodeError, MsgTypes, WireMessage};

fn users(names: &[&str]) -> WireMessage {
    WireMessage {
        message_type: MsgTypes::Users,
        data_array: Some(names.iter().map(|n| n.to_string()).collect()),
        data: None,
    }
}

fn single(kind: MsgTypes, data: &str) -> WireMessage {
    WireMessage { message_type: kind, data_array: None, data: Some(data.to_string()) }
}

fn same(a: &WireMessage, b: &WireMessage) -> bool {
    a.message_type == b.message_type && a.data_array == b.data_array && a.data == b.data
}

#[test]
fn register_frame_reads_back() {
    let frame = single(MsgTypes::Register, "alice");
    let back = decode(&encode(&frame)).unwrap();
    assert!(same(&back, &frame));
}

#[test]
fn message_frame_reads_back() {
    let frame = single(MsgTypes::Message, "{\"from\":\"alice\",\"message\":\"hi\"}");
    let back = decode(&encode(&frame)).unwrap();
    assert!(same(&back, &frame));
}

#[test]
fn users_frame_reads_back() {
    let frame = users(&["a", "b", "c"]);
    let back = decode(&encode(&frame)).unwrap();
    assert!(same(&back, &frame));
}

#[test]
fn empty_roster_reads_back() {
    let frame = users(&[]);
    let back = decode(&encode(&frame)).unwrap();
    assert_eq!(back.data_array, Some(Vec::<String>::new()));
    assert_eq!(back.data, None);
}

#[test]
fn awkward_characters_read_back() {
    for data in ["", "\"", "\\", "a\nb\tc", "\u{0}\u{1f}", "naïve ☀ 🌙", "}{][,:", "null"] {
        let frame = single(MsgTypes::Message, data);
        let back = decode(&encode(&frame)).unwrap();
        assert!(same(&back, &frame));
        let roster = users(&[data, "x"]);
        let again = decode(&encode(&roster)).unwrap();
        assert!(same(&again, &roster));
    }
}

#[test]
fn register_frame_text() {
    let text = encode(&single(MsgTypes::Register, "alice"));
    assert_eq!(text, "{\"data\":\"alice\",\"messageType\":\"register\"}");
}

#[test]
fn users_frame_text() {
    let text = encode(&users(&["a", "b"]));
    assert_eq!(text, "{\"dataArray\":[\"a\",\"b\"],\"messageType\":\"users\"}");
}

#[test]
fn absent_payload_gets_no_member() {
    let text = encode(&single(MsgTypes::Message, "hi"));
    assert!(!text.contains("dataArray"));
    assert!(!text.contains("null"));
    let text = encode(&users(&["a"]));
    assert!(!text.contains("\"data\""));
}

#[test]
fn quotes_are_escaped() {
    let text = encode(&single(MsgTypes::Message, "say \"hi\""));
    assert_eq!(text, "{\"data\":\"say \\\"hi\\\"\",\"messageType\":\"message\"}");
}

#[test]
fn wire_frames_of_the_protocol_decode() {
    let r = decode("{ \"messageType\": \"register\", \"data\": \"bob\" }").unwrap();
    assert!(same(&r, &single(MsgTypes::Register, "bob")));
    let u = decode("{ \"messageType\": \"users\",    \"dataArray\": [\"bob\", \"eve\"] }").unwrap();
    assert!(same(&u, &users(&["bob", "eve"])));
    let m = decode("{ \"messageType\": \"message\",  \"data\": \"{\\\"message\\\":\\\"yo\\\"}\" }").unwrap();
    assert!(same(&m, &single(MsgTypes::Message, "{\"message\":\"yo\"}")));
}

#[test]
fn null_placeholder_for_the_other_payload_is_ignored() {
    let r = decode("{\"messageType\":\"register\",\"dataArray\":null,\"data\":\"bob\"}").unwrap();
    assert!(same(&r, &single(MsgTypes::Register, "bob")));
}

#[test]
fn payload_of_another_kind_is_not_read() {
    let r = decode("{\"messageType\":\"users\",\"dataArray\":[\"a\"],\"data\":\"x\"}").unwrap();
    assert!(same(&r, &users(&["a"])));
}

#[test]
fn unknown_kind_is_refused() {
    assert_eq!(decode("{\"messageType\":\"ping\",\"data\":\"x\"}").err(), Some(DecodeError::UnknownKind));
    assert_eq!(decode("{\"messageType\":\"Users\",\"dataArray\":[]}").err(), Some(DecodeError::UnknownKind));
    assert_eq!(decode("{\"messageType\":\"\",\"data\":\"x\"}").err(), Some(DecodeError::UnknownKind));
}

#[test]
fn missing_kind_is_refused() {
    assert_eq!(decode("{\"data\":\"x\"}").err(), Some(DecodeError::UnknownKind));
    assert_eq!(decode("{\"messageType\":7,\"data\":\"x\"}").err(), Some(DecodeError::UnknownKind));
    assert_eq!(decode("{\"messageType\":null}").err(), Some(DecodeError::UnknownKind));
    assert_eq!(decode("[\"users\",[\"a\"]]").err(), Some(DecodeError::UnknownKind));
    assert_eq!(decode("\"users\"").err(), Some(DecodeError::UnknownKind));
}

#[test]
fn text_that_is_not_json_is_refused() {
    for text in ["", "hello", "{", "{\"messageType\":\"users\"", "{\"messageType\":\"register\",\"data\":\"x\"} trailing", "{'messageType':'users'}"] {
        assert_eq!(decode(text).err(), Some(DecodeError::Malformed));
    }
}

#[test]
fn missing_payload_is_refused() {
    assert_eq!(decode("{\"messageType\":\"users\"}").err(), Some(DecodeError::MissingPayload));
    assert_eq!(decode("{\"messageType\":\"users\",\"data\":\"x\"}").err(), Some(DecodeError::MissingPayload));
    assert_eq!(decode("{\"messageType\":\"users\",\"dataArray\":null}").err(), Some(DecodeError::MissingPayload));
    assert_eq!(decode("{\"messageType\":\"users\",\"dataArray\":[\"a\",1]}").err(), Some(DecodeError::MissingPayload));
    assert_eq!(decode("{\"messageType\":\"users\",\"dataArray\":\"a\"}").err(), Some(DecodeError::MissingPayload));
    assert_eq!(decode("{\"messageType\":\"register\"}").err(), Some(DecodeError::MissingPayload));
    assert_eq!(decode("{\"messageType\":\"register\",\"data\":null}").err(), Some(DecodeError::MissingPayload));
    assert_eq!(decode("{\"messageType\":\"message\",\"dataArray\":[\"a\"]}").err(), Some(DecodeError::MissingPayload));
    assert_eq!(decode("{\"messageType\":\"message\",\"data\":{\"message\":\"x\"}}").err(), Some(DecodeError::MissingPayload));
}

#[test]
fn a_repeated_member_counts_once_with_its_last_value() {
    let r = decode("{\"messageType\":\"ping\",\"messageType\":\"register\",\"data\":\"a\",\"data\":\"b\"}").unwrap();
    assert!(same(&r, &single(MsgTypes::Register, "b")));
}

#[test]
fn decode_value_reads_a_built_document() {
    let mut members = serde_json::Map::new();
    members.insert(String::from("messageType"), serde_json::Value::String(String::from("users")));
    members.insert(
        String::from("dataArray"),
        serde_json::Value::Array(vec![serde_json::Value::String(String::from("a"))]),
    );
    let r = decode_value(&serde_json::Value::Object(members)).unwrap();
    assert!(same(&r, &users(&["a"])));
    assert_eq!(decode_value(&serde_json::Value::Null).err(), Some(DecodeError::UnknownKind));
    assert_eq!(decode_value(&serde_json::Value::Bool(true)).err(), Some(DecodeError::UnknownKind));
}

#[test]
fn read_texts_takes_only_lists_of_strings() {
    let list = serde_json::Value::Array(vec![
        serde_json::Value::String(String::from("a")),
        serde_json::Value::String(String::from("")),
    ]);
    assert_eq!(read_texts(&list), Some(vec![String::from("a"), String::new()]));
    assert_eq!(read_texts(&serde_json::Value::Array(vec![])), Some(vec![]));
    let mixed = serde_json::Value::Array(vec![serde_json::Value::String(String::from("a")), serde_json::Value::Null]);
    assert_eq!(read_texts(&mixed), None);
    assert_eq!(read_texts(&serde_json::Value::String(String::from("a"))), None);
}

#[test]
fn kinds_and_their_words() {
    assert_eq!(MsgTypes::Users.as_str(), "users");
    assert_eq!(MsgTypes::Register.as_str(), "register");
    assert_eq!(MsgTypes::Message.as_str(), "message");
    for kind in [MsgTypes::Users, MsgTypes::Register, MsgTypes::Message] {
        assert_eq!(MsgTypes::from_str(kind.as_str()), Some(kind));
    }
    assert_eq!(MsgTypes::from_str("USERS"), None);
    assert_eq!(MsgTypes::from_str("user"), None);
    assert_eq!(MsgTypes::from_str(""), None);
}

#[test]
fn same_text_compares_characters() {
    assert!(same_text("abc", "abc"));
    assert!(same_text("", ""));
    assert!(!same_text("abc", "abd"));
    assert!(!same_text("abc", "ab"));
}
