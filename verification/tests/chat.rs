use yewchat::bridge::EventBus;
use yewchat::chat::{avatar_for, roster_for, Chat, Msg};
use yewchat::payload::{InnerDecodeError, MessageData};
use yewchat::transport::SendFailure;
use yewchat::wire::{decode, DecodeError, MsgTypes, WireMessage};

fn session(name: &str) -> Chat {
    let mut bus = EventBus::new();
    let mut chat = Chat::create(String::from(name), &mut bus);
    assert!(chat.next_frame().is_some());
    chat
}

fn names(chat: &Chat) -> Vec<String> {
    chat.users().iter().map(|u| u.name.clone()).collect()
}

fn log(chat: &Chat) -> Vec<(String, String)> {
    chat.messages().iter().map(|m| (m.from.clone(), m.message.clone())).collect()
}

fn handle(chat: &mut Chat, raw: &str) -> bool {
    chat.update(Msg::HandleMsg(String::from(raw)))
}

#[test]
fn session_starts_empty_and_registers_once() {
    let mut bus = EventBus::new();
    let mut chat = Chat::create(String::from("alice"), &mut bus);
    assert!(chat.users().is_empty());
    assert!(chat.messages().is_empty());
    assert!(!chat.is_dark());
    assert_eq!(chat.input(), None);
    assert_eq!(chat.producer(), 0);
    assert!(bus.is_subscribed(chat.producer()));
    assert_eq!(bus.subscriber_count(), 1);
    let frame = chat.next_frame().unwrap();
    assert_eq!(frame, "{\"data\":\"alice\",\"messageType\":\"register\"}");
    let back = decode(&frame).unwrap();
    assert_eq!(back.message_type, MsgTypes::Register);
    assert_eq!(back.data, Some(String::from("alice")));
    assert_eq!(chat.next_frame(), None);
}

#[test]
fn empty_name_still_registers() {
    let mut bus = EventBus::new();
    let mut chat = Chat::create(String::new(), &mut bus);
    assert_eq!(chat.next_frame(), Some(String::from("{\"data\":\"\",\"messageType\":\"register\"}")));
}

#[test]
fn second_session_gets_its_own_subscription() {
    let mut bus = EventBus::new();
    let a = Chat::create(String::from("a"), &mut bus);
    let b = Chat::create(String::from("b"), &mut bus);
    assert_eq!((a.producer(), b.producer()), (0, 1));
    let out = bus.publish("x");
    assert_eq!(out.len(), 2);
    assert_eq!((out[0].to, out[1].to), (0, 1));
}

#[test]
fn second_roster_replaces_the_first() {
    let mut chat = session("me");
    assert!(handle(&mut chat, "{\"messageType\":\"users\",\"dataArray\":[\"a\",\"b\"]}"));
    assert_eq!(names(&chat), vec!["a", "b"]);
    assert!(handle(&mut chat, "{\"messageType\":\"users\",\"dataArray\":[\"b\",\"c\"]}"));
    assert_eq!(names(&chat), vec!["b", "c"]);
    assert!(chat.messages().is_empty());
}

#[test]
fn same_roster_again_still_draws() {
    let mut chat = session("me");
    assert!(handle(&mut chat, "{\"messageType\":\"users\",\"dataArray\":[\"a\"]}"));
    assert!(handle(&mut chat, "{\"messageType\":\"users\",\"dataArray\":[\"a\"]}"));
    assert_eq!(names(&chat), vec!["a"]);
}

#[test]
fn empty_roster_clears_everyone() {
    let mut chat = session("me");
    assert!(handle(&mut chat, "{\"messageType\":\"users\",\"dataArray\":[\"a\",\"b\"]}"));
    assert!(handle(&mut chat, "{\"messageType\":\"users\",\"dataArray\":[]}"));
    assert!(chat.users().is_empty());
}

#[test]
fn roster_keeps_names_as_they_come() {
    let mut chat = session("me");
    assert!(handle(&mut chat, "{\"messageType\":\"users\",\"dataArray\":[\"b\",\"a\",\"b\"]}"));
    assert_eq!(names(&chat), vec!["b", "a", "b"]);
}

#[test]
fn avatar_comes_from_the_name() {
    assert_eq!(avatar_for("alice"), "https://avatars.dicebear.com/api/adventurer-neutral/alice.svg");
    assert_eq!(avatar_for(""), "https://avatars.dicebear.com/api/adventurer-neutral/.svg");
    let mut chat = session("me");
    assert!(handle(&mut chat, "{\"messageType\":\"users\",\"dataArray\":[\"a\",\"b\"]}"));
    assert_eq!(chat.users()[0].avatar, "https://avatars.dicebear.com/api/adventurer-neutral/a.svg");
    assert_eq!(chat.users()[1].avatar, "https://avatars.dicebear.com/api/adventurer-neutral/b.svg");
    let again = roster_for(&vec![String::from("a")]);
    assert_eq!(again[0].avatar, chat.users()[0].avatar);
}

#[test]
fn message_frame_appends_one_message() {
    let mut chat = session("me");
    assert!(handle(&mut chat, "{\"messageType\":\"users\",\"dataArray\":[\"alice\"]}"));
    let raw = "{\"messageType\":\"message\",\"data\":\"{\\\"from\\\":\\\"alice\\\",\\\"message\\\":\\\"hi\\\"}\"}";
    assert!(handle(&mut chat, raw));
    assert_eq!(log(&chat), vec![(String::from("alice"), String::from("hi"))]);
    assert_eq!(names(&chat), vec!["alice"]);
}

#[test]
fn message_from_a_stranger_is_still_logged() {
    let mut chat = session("me");
    assert!(handle(&mut chat, "{\"messageType\":\"users\",\"dataArray\":[\"alice\"]}"));
    let raw = "{\"messageType\":\"message\",\"data\":\"{\\\"from\\\":\\\"ghost\\\",\\\"message\\\":\\\"boo\\\"}\"}";
    assert!(handle(&mut chat, raw));
    assert_eq!(log(&chat), vec![(String::from("ghost"), String::from("boo"))]);
    assert_eq!(names(&chat), vec!["alice"]);
}

#[test]
fn messages_stay_in_arrival_order() {
    let mut chat = session("me");
    for (from, body) in [("a", "1"), ("b", "2"), ("a", "3")] {
        let inner = format!("{{\"from\":\"{}\",\"message\":\"{}\"}}", from, body);
        let frame = WireMessage { message_type: MsgTypes::Message, data_array: None, data: Some(inner) };
        assert!(chat.receive(Ok(frame)));
    }
    assert_eq!(
        log(&chat),
        vec![
            (String::from("a"), String::from("1")),
            (String::from("b"), String::from("2")),
            (String::from("a"), String::from("3")),
        ]
    );
    assert!(handle(&mut chat, "{\"messageType\":\"users\",\"dataArray\":[\"z\"]}"));
    assert_eq!(chat.messages().len(), 3);
}

#[test]
fn frames_that_do_not_decode_are_dropped() {
    let mut chat = session("me");
    assert!(handle(&mut chat, "{\"messageType\":\"users\",\"dataArray\":[\"a\"]}"));
    for raw in [
        "",
        "not json",
        "{\"messageType\":\"ping\",\"data\":\"x\"}",
        "{\"messageType\":\"users\"}",
        "{\"messageType\":\"message\"}",
        "{\"messageType\":\"message\",\"data\":\"plain text\"}",
        "{\"messageType\":\"message\",\"data\":\"{\\\"message\\\":\\\"no sender\\\"}\"}",
        "{\"messageType\":\"register\",\"data\":\"eve\"}",
    ] {
        assert!(!handle(&mut chat, raw));
        assert_eq!(names(&chat), vec!["a"]);
        assert!(chat.messages().is_empty());
        assert_eq!(chat.next_frame(), None);
    }
}

#[test]
fn receive_takes_what_was_decoded() {
    let mut chat = session("me");
    assert!(!chat.receive(Err(DecodeError::Malformed)));
    assert!(!chat.receive(Err(DecodeError::UnknownKind)));
    assert!(!chat.receive(Err(DecodeError::MissingPayload)));
    let bare = WireMessage { message_type: MsgTypes::Users, data_array: None, data: None };
    assert!(chat.receive(Ok(bare)));
    assert!(chat.users().is_empty());
    let empty = WireMessage { message_type: MsgTypes::Message, data_array: None, data: None };
    assert!(!chat.receive(Ok(empty)));
    let register = WireMessage { message_type: MsgTypes::Register, data_array: None, data: Some(String::from("x")) };
    assert!(!chat.receive(Ok(register)));
    assert!(chat.messages().is_empty());
}

#[test]
fn deliver_takes_what_was_decoded() {
    let mut chat = session("me");
    assert!(!chat.deliver(Err(InnerDecodeError::Malformed)));
    assert!(!chat.deliver(Err(InnerDecodeError::MissingField)));
    assert!(chat.messages().is_empty());
    assert!(chat.deliver(Ok(MessageData { from: String::from("a"), message: String::from("b") })));
    assert_eq!(log(&chat), vec![(String::from("a"), String::from("b"))]);
}

#[test]
fn toggling_twice_restores_the_theme() {
    let mut chat = session("me");
    assert!(!chat.is_dark());
    assert!(chat.update(Msg::ToggleTheme));
    assert!(chat.is_dark());
    assert!(chat.update(Msg::ToggleTheme));
    assert!(!chat.is_dark());
    assert_eq!(chat.next_frame(), None);
}

#[test]
fn empty_submit_is_a_no_op() {
    let mut chat = session("me");
    chat.set_input(Some(String::new()));
    assert!(!chat.update(Msg::SubmitMessage));
    assert_eq!(chat.input(), Some(""));
    assert_eq!(chat.next_frame(), None);
    assert!(chat.messages().is_empty());
}

#[test]
fn can_submit_only_with_something_typed() {
    let mut chat = session("me");
    assert!(!chat.can_submit());
    chat.set_input(Some(String::new()));
    assert!(!chat.can_submit());
    chat.set_input(Some(String::from(" ")));
    assert!(chat.can_submit());
    chat.set_input(Some(String::from("hello")));
    assert!(chat.can_submit());
    assert!(!chat.update(Msg::SubmitMessage));
    assert!(!chat.can_submit());
    chat.set_input(None);
    assert!(!chat.can_submit());
}

#[test]
fn submit_without_a_compose_input_is_a_no_op() {
    let mut chat = session("me");
    assert!(!chat.update(Msg::SubmitMessage));
    assert_eq!(chat.input(), None);
    assert_eq!(chat.next_frame(), None);
}

#[test]
fn submit_sends_one_frame_and_clears_the_input() {
    let mut chat = session("me");
    chat.set_input(Some(String::from("hello")));
    assert!(!chat.update(Msg::SubmitMessage));
    assert_eq!(chat.input(), Some(""));
    assert!(chat.messages().is_empty());
    let frame = chat.next_frame().unwrap();
    assert_eq!(frame, "{\"data\":\"{\\\"message\\\":\\\"hello\\\"}\",\"messageType\":\"message\"}");
    assert_eq!(chat.next_frame(), None);
    let back = decode(&frame).unwrap();
    assert_eq!(back.message_type, MsgTypes::Message);
    assert_eq!(back.data, Some(String::from("{\"message\":\"hello\"}")));
    assert!(!chat.update(Msg::SubmitMessage));
    assert_eq!(chat.next_frame(), None);
}

#[test]
fn own_message_appears_when_the_relay_echoes_it() {
    let mut chat = session("me");
    chat.set_input(Some(String::from("hello")));
    assert!(!chat.update(Msg::SubmitMessage));
    assert!(chat.messages().is_empty());
    let raw = "{\"messageType\":\"message\",\"data\":\"{\\\"from\\\":\\\"me\\\",\\\"message\\\":\\\"hello\\\"}\"}";
    assert!(handle(&mut chat, raw));
    assert_eq!(log(&chat), vec![(String::from("me"), String::from("hello"))]);
}

#[test]
fn submit_on_a_closed_connection_drops_the_frame() {
    let mut chat = session("me");
    chat.close();
    chat.set_input(Some(String::from("hello")));
    assert!(!chat.update(Msg::SubmitMessage));
    assert_eq!(chat.input(), Some(""));
    assert_eq!(chat.next_frame(), None);
    assert_eq!(chat.send(String::from("x")), Err(SendFailure::Closed));
}

#[test]
fn submit_on_a_full_queue_drops_the_frame() {
    let mut bus = EventBus::new();
    let mut chat = Chat::create(String::from("me"), &mut bus);
    for _ in 1..1000 {
        assert_eq!(chat.send(String::from("filler")), Ok(()));
    }
    assert_eq!(chat.send(String::from("one too many")), Err(SendFailure::QueueFull));
    chat.set_input(Some(String::from("hello")));
    assert!(!chat.update(Msg::SubmitMessage));
    assert_eq!(chat.input(), Some(""));
    let mut count = 0;
    while let Some(frame) = chat.next_frame() {
        assert!(!frame.contains("hello"));
        count += 1;
    }
    assert_eq!(count, 1000);
}

#[test]
fn bridge_delivery_reaches_the_session() {
    let mut bus = EventBus::new();
    let mut chat = Chat::create(String::from("me"), &mut bus);
    let out = bus.publish("{\"messageType\":\"users\",\"dataArray\":[\"me\"]}");
    assert_eq!(out.len(), 1);
    assert_eq!(out[0].to, chat.producer());
    for delivery in out {
        assert!(chat.update(Msg::HandleMsg(delivery.text)));
    }
    assert_eq!(names(&chat), vec!["me"]);
}
