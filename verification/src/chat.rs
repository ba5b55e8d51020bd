//! The session: who is there, what was said, and how the screen is themed.
//! Every change comes through [`Chat::update`], from a text that the bridge
//! delivered or from something the user did. No step here fails: a text that
//! does not decode is dropped and changes nothing.

use crate::bridge::EventBus;
use crate::payload::{
    decode_message, encode_outbound, message_text, message_view, outbound_text, InnerDecodeError,
    MessageData, MessageDataView,
};
use crate::render::{entries, page_of, profiles, project, ChatPage};
use crate::transport::{SendFailure, WebsocketService, WebsocketServiceView, DEFAULT_CAPACITY};
use crate::wire::{
    decode, decode_text, decoded_view, encode, encode_text, texts, DecodeError, MsgTypes,
    WireMessage, WireMessageView,
};
use vstd::prelude::*;

verus! {

/// What can happen to a session.
#[derive(Debug)]
pub enum Msg {
    /// A text came in from the relay, still as it was sent.
    HandleMsg(String),
    /// The user asked to send what stands in the compose input.
    SubmitMessage,
    /// The user asked for the other theme.
    ToggleTheme,
}

/// One participant: the name, and where the picture for it is found.
#[derive(Debug)]
pub struct UserProfile {
    pub name: String,
    pub avatar: String,
}

/// A participant as a mathematical value.
pub struct UserProfileView {
    pub name: Seq<char>,
    pub avatar: Seq<char>,
}

impl View for UserProfile {
    type V = UserProfileView;

    open spec fn view(&self) -> UserProfileView {
        UserProfileView { name: self.name@, avatar: self.avatar@ }
    }
}

/// Where the picture for a name is found: the same address for the same
/// name, every time.
pub open spec fn avatar_url(name: Seq<char>) -> Seq<char> {
    "https://avatars.dicebear.com/api/adventurer-neutral/"@ + name + ".svg"@
}

/// The participant that a name stands for.
pub open spec fn profile_of(name: Seq<char>) -> UserProfileView {
    UserProfileView { name, avatar: avatar_url(name) }
}

/// The roster that a list of names stands for: one participant for each name,
/// in the same order.
pub open spec fn roster_of(names: Seq<Seq<char>>) -> Seq<UserProfileView> {
    Seq::new(names.len(), |i: int| profile_of(names[i]))
}

/// The `message` frame that carries `data`.
pub open spec fn message_frame(data: Seq<char>) -> WireMessageView {
    WireMessageView { message_type: MsgTypes::Message, data_array: None, data: Some(data) }
}

/// The `register` frame for a name.
pub open spec fn register_frame(username: Seq<char>) -> WireMessageView {
    WireMessageView { message_type: MsgTypes::Register, data_array: None, data: Some(username) }
}

/// The session.
#[derive(Debug)]
pub struct Chat {
    users: Vec<UserProfile>,
    chat_input: Option<String>,
    _producer: u64,
    wss: WebsocketService,
    messages: Vec<MessageData>,
    is_dark: bool,
}

/// The session as a mathematical value. `chat_input` is what stands in the
/// compose input, or `None` while the screen has none; `producer` is the
/// session's subscription at the bridge; `wss` is the queue to the relay.
pub struct SessionState {
    pub users: Seq<UserProfileView>,
    pub chat_input: Option<Seq<char>>,
    pub producer: u64,
    pub wss: WebsocketServiceView,
    pub messages: Seq<MessageDataView>,
    pub is_dark: bool,
}

impl SessionState {
    /// The session as it starts: nobody there, nothing said, light theme, no
    /// compose input yet, and the `register` frame waiting to go out.
    pub open spec fn start(username: Seq<char>, producer: u64) -> SessionState {
        SessionState {
            users: Seq::empty(),
            chat_input: None,
            producer,
            wss: (WebsocketServiceView {
                pending: Seq::empty(),
                capacity: DEFAULT_CAPACITY as nat,
                open: true,
            }).offer(encode_text(register_frame(username))),
            messages: Seq::empty(),
            is_dark: false,
        }
    }

    /// The session with the roster replaced by the one that `names` stands
    /// for. Nothing of the roster before is kept.
    pub open spec fn with_roster(self, names: Seq<Seq<char>>) -> SessionState {
        SessionState { users: roster_of(names), ..self }
    }

    /// What a decoded chat message does: it is added at the end of the log and
    /// the screen is drawn again; one that did not decode does nothing.
    pub open spec fn deliver(self, data: Result<MessageDataView, InnerDecodeError>) -> (
        SessionState,
        bool,
    ) {
        match data {
            Ok(message) => (SessionState { messages: self.messages.push(message), ..self }, true),
            Err(_) => (self, false),
        }
    }

    /// What a decoded frame does. `users` replaces the roster and always
    /// draws again; `message` goes on to [`SessionState::deliver`]; `register` is
    /// nothing a relay sends and does nothing, as does a text that did not
    /// decode.
    pub open spec fn receive(self, frame: Result<WireMessageView, DecodeError>) -> (
        SessionState,
        bool,
    ) {
        match frame {
            Err(_) => (self, false),
            Ok(m) => match m.message_type {
                MsgTypes::Users => (
                    self.with_roster(
                        match m.data_array {
                            Some(names) => names,
                            None => Seq::empty(),
                        },
                    ),
                    true,
                ),
                MsgTypes::Message => match m.data {
                    Some(data) => self.deliver(message_text(data)),
                    None => (self, false),
                },
                MsgTypes::Register => (self, false),
            },
        }
    }

    /// Whether there is something to send.
    pub open spec fn can_submit(self) -> bool {
        self.chat_input matches Some(typed) && typed.len() > 0
    }

    /// The frame that goes out for what stands in the compose input.
    pub open spec fn outbound_frame(self) -> Seq<char> {
        encode_text(message_frame(outbound_text(self.chat_input->Some_0)))
    }

    /// What a submit does. With something typed, its frame is offered to the
    /// queue and the compose input is emptied; the log is left alone, since
    /// the message comes back from the relay like anyone else's. With nothing
    /// typed, or no compose input, nothing changes.
    pub open spec fn submit(self) -> SessionState {
        if self.can_submit() {
            SessionState {
                wss: self.wss.offer(self.outbound_frame()),
                chat_input: Some(Seq::empty()),
                ..self
            }
        } else {
            self
        }
    }

    /// The session with the other theme.
    pub open spec fn toggle(self) -> SessionState {
        SessionState { is_dark: !self.is_dark, ..self }
    }

    /// The session after `msg`, and whether the screen is to be drawn again.
    pub open spec fn update(self, msg: Msg) -> (SessionState, bool) {
        match msg {
            Msg::HandleMsg(raw) => self.receive(decode_text(raw@)),
            Msg::SubmitMessage => (self.submit(), false),
            Msg::ToggleTheme => (self.toggle(), true),
        }
    }
}

impl Chat {
    /// The session as a mathematical value.
    pub closed spec fn state(&self) -> SessionState {
        SessionState {
            users: profiles(self.users@),
            chat_input: match self.chat_input {
                Some(typed) => Some(typed@),
                None => None,
            },
            producer: self._producer,
            wss: self.wss@,
            messages: entries(self.messages@),
            is_dark: self.is_dark,
        }
    }
}

/// Where the picture for a name is found.
pub fn avatar_for(name: &str) -> (url: String)
    ensures
        url@ == avatar_url(name@),
{
    String::from_str("https://avatars.dicebear.com/api/adventurer-neutral/").concat(name).concat(
        ".svg",
    )
}

/// The roster for a list of names.
pub fn roster_for(names: &Vec<String>) -> (users: Vec<UserProfile>)
    ensures
        profiles(users@) == roster_of(texts(names@)),
{
    let mut users: Vec<UserProfile> = Vec::new();
    let mut i: usize = 0;
    while i < names.len()
        invariant
            i <= names@.len(),
            users@.len() == i,
            forall|j: int| 0 <= j < i ==> (#[trigger] users@[j])@ == profile_of(names@[j]@),
        decreases names@.len() - i,
    {
        let name = names[i].clone();
        let avatar = avatar_for(names[i].as_str());
        users.push(UserProfile { name, avatar });
        i += 1;
    }
    assert(profiles(users@) =~= roster_of(texts(names@)));
    users
}

impl Chat {
    /// Starts a session for `username`: puts the `register` frame in the
    /// queue to the relay, before anything else, and subscribes to the
    /// bridge. The name is taken as it is; an empty one too.
    pub fn create(username: String, bus: &mut EventBus) -> (chat: Chat)
        requires
            old(bus)@.issued < u64::MAX,
        ensures
            chat.state() == SessionState::start(username@, old(bus)@.issued as u64),
            final(bus)@ == old(bus)@.subscribe(),
            old(bus)@.ordered() ==> final(bus)@.ordered(),
    {
        let mut wss = WebsocketService::new();
        let message = WireMessage {
            message_type: MsgTypes::Register,
            data_array: None,
            data: Some(username),
        };
        let _ = wss.send(encode(&message));
        let producer = bus.subscribe();
        let chat = Chat {
            users: Vec::new(),
            chat_input: None,
            _producer: producer,
            wss,
            messages: Vec::new(),
            is_dark: false,
        };
        assert(chat.state().users =~= Seq::empty());
        assert(chat.state().messages =~= Seq::empty());
        chat
    }

    /// Applies one event and says whether the screen is to be drawn again.
    pub fn update(&mut self, msg: Msg) -> (render: bool)
        ensures
            (final(self).state(), render) == old(self).state().update(msg),
    {
        match msg {
            Msg::HandleMsg(raw) => self.receive(decode(raw.as_str())),
            Msg::SubmitMessage => {
                self.submit();
                false
            },
            Msg::ToggleTheme => {
                self.toggle_theme();
                true
            },
        }
    }

    /// Applies what a text from the relay decoded to.
    pub fn receive(&mut self, frame: Result<WireMessage, DecodeError>) -> (render: bool)
        ensures
            (final(self).state(), render) == old(self).state().receive(decoded_view(frame)),
    {
        match frame {
            Err(_) => false,
            Ok(m) => match m.message_type {
                MsgTypes::Users => {
                    self.users = match &m.data_array {
                        Some(names) => roster_for(names),
                        None => {
                            let none: Vec<UserProfile> = Vec::new();
                            assert(profiles(none@) =~= roster_of(Seq::empty()));
                            none
                        },
                    };
                    true
                },
                MsgTypes::Message => match &m.data {
                    Some(data) => self.deliver(decode_message(data.as_str())),
                    None => false,
                },
                MsgTypes::Register => false,
            },
        }
    }

    /// Applies what the `data` of a `message` frame decoded to.
    pub fn deliver(&mut self, data: Result<MessageData, InnerDecodeError>) -> (render: bool)
        ensures
            (final(self).state(), render) == old(self).state().deliver(message_view(data)),
    {
        match data {
            Ok(message) => {
                self.messages.push(message);
                assert(self.state().messages =~= old(self).state().messages.push(message@));
                true
            },
            Err(_) => false,
        }
    }

    /// Whether a submit would send something: there is a compose input and it
    /// is not empty.
    pub fn can_submit(&self) -> (yes: bool)
        ensures
            yes == self.state().can_submit(),
    {
        match &self.chat_input {
            Some(typed) => !typed.as_str().is_empty(),
            None => false,
        }
    }

    /// Sends what stands in the compose input, if anything does, and empties
    /// the input. A frame that the queue refuses is dropped.
    pub fn submit(&mut self)
        ensures
            final(self).state() == old(self).state().submit(),
    {
        let frame = match &self.chat_input {
            Some(typed) => {
                if typed.as_str().is_empty() {
                    return ;
                }
                let message = WireMessage {
                    message_type: MsgTypes::Message,
                    data_array: None,
                    data: Some(encode_outbound(typed.as_str())),
                };
                encode(&message)
            },
            None => {
                return ;
            },
        };
        let _ = self.wss.send(frame);
        self.chat_input = Some(String::new());
    }

    /// The page that shows the session. The session is only read.
    pub fn view(&self) -> (page: ChatPage)
        ensures
            page@ == page_of(self.state().users, self.state().messages, self.state().is_dark),
    {
        project(&self.users, &self.messages, self.is_dark)
    }

    /// Flips between the light and the dark theme. Nothing goes to the relay.
    pub fn toggle_theme(&mut self)
        ensures
            final(self).state() == old(self).state().toggle(),
    {
        self.is_dark = !self.is_dark;
    }

    /// Tells the session what stands in the compose input now, or that the
    /// screen has no compose input.
    pub fn set_input(&mut self, typed: Option<String>)
        ensures
            final(self).state() == (SessionState {
                chat_input: match typed {
                    Some(t) => Some(t@),
                    None => None,
                },
                ..old(self).state()
            }),
    {
        self.chat_input = typed;
    }

    /// What stands in the compose input.
    pub fn input(&self) -> (typed: Option<&str>)
        ensures
            match typed {
                Some(t) => self.state().chat_input == Some(t@),
                None => self.state().chat_input is None,
            },
    {
        match &self.chat_input {
            Some(t) => Some(t.as_str()),
            None => None,
        }
    }

    /// Offers a frame to the queue to the relay.
    pub fn send(&mut self, text: String) -> (r: Result<(), SendFailure>)
        ensures
            final(self).state() == (SessionState { wss: old(self).state().wss.send(text@).0, ..old(self).state() }),
            r == old(self).state().wss.send(text@).1,
    {
        self.wss.send(text)
    }

    /// Takes the oldest frame out of the queue to the relay, for the
    /// application to write to the socket.
    pub fn next_frame(&mut self) -> (frame: Option<String>)
        ensures
            match frame {
                Some(text) => old(self).state().wss.pending.len() > 0 && text@ == old(self).state().wss.pending[0] && final(self).state() == (SessionState {
                    wss: WebsocketServiceView {
                        pending: old(self).state().wss.pending.skip(1),
                        ..old(self).state().wss
                    },
                    ..old(self).state()
                }),
                None => old(self).state().wss.pending.len() == 0 && final(self).state() == old(self).state(),
            },
    {
        self.wss.next_frame()
    }

    /// Marks the connection to the relay as gone.
    pub fn close(&mut self)
        ensures
            final(self).state() == (SessionState {
                wss: WebsocketServiceView { open: false, ..old(self).state().wss },
                ..old(self).state()
            }),
    {
        self.wss.close();
    }

    /// The participants, in the order of the last roster.
    pub fn users(&self) -> (users: &Vec<UserProfile>)
        ensures
            profiles(users@) == self.state().users,
    {
        &self.users
    }

    /// The messages, in the order in which they arrived.
    pub fn messages(&self) -> (messages: &Vec<MessageData>)
        ensures
            entries(messages@) == self.state().messages,
    {
        &self.messages
    }

    pub fn is_dark(&self) -> (dark: bool)
        ensures
            dark == self.state().is_dark,
    {
        self.is_dark
    }

    /// The session's subscription at the bridge.
    pub fn producer(&self) -> (handle: u64)
        ensures
            handle == self.state().producer,
    {
        self._producer
    }
}

/// Two toggles in a row leave the session as it was. Each of them draws the
/// screen again, and neither puts anything in the queue to the relay.
pub proof fn toggle_twice_restores(state: SessionState)
    ensures
        state.update(Msg::ToggleTheme).1,
        state.update(Msg::ToggleTheme).0.wss == state.wss,
        state.update(Msg::ToggleTheme).0.is_dark != state.is_dark,
        state.update(Msg::ToggleTheme).0.update(Msg::ToggleTheme).1,
        state.update(Msg::ToggleTheme).0.update(Msg::ToggleTheme).0 == state,
{
}

/// A roster replaces the one before it: after two `users` frames the roster
/// is that of the second, whatever the first one held, and both draw the
/// screen again, also where nothing changed.
pub proof fn roster_is_replaced(state: SessionState, first: Seq<Seq<char>>, second: Seq<Seq<char>>)
    ensures
        ({
            let a = WireMessageView {
                message_type: MsgTypes::Users,
                data_array: Some(first),
                data: None,
            };
            let b = WireMessageView {
                message_type: MsgTypes::Users,
                data_array: Some(second),
                data: None,
            };
            let once = state.receive(Ok(a));
            let twice = once.0.receive(Ok(b));
            &&& once.1 && twice.1
            &&& twice.0.users == roster_of(second)
            &&& twice.0 == state.with_roster(second)
        }),
{
}

/// A `message` frame whose `data` decodes adds that one message at the end of
/// the log, leaves the roster and everything else alone, and draws the screen
/// again. Whether the sender is on the roster plays no part.
pub proof fn message_appends_one(state: SessionState, data: Seq<char>, message: MessageDataView)
    requires
        message_text(data) == Ok::<MessageDataView, InnerDecodeError>(message),
    ensures
        state.receive(Ok(message_frame(data))).1,
        state.receive(Ok(message_frame(data))).0 == (SessionState {
            messages: state.messages.push(message),
            ..state
        }),
{
}

/// A text that is no frame, a `message` frame whose `data` is no chat
/// message, and a `register` frame change nothing and do not draw the screen
/// again.
pub proof fn dropped_frames_change_nothing(state: SessionState, raw: String)
    requires
        match decode_text(raw@) {
            Err(_) => true,
            Ok(m) => match m.message_type {
                MsgTypes::Users => false,
                MsgTypes::Register => true,
                MsgTypes::Message => m.data matches Some(data) ==> message_text(data) is Err,
            },
        },
    ensures
        state.update(Msg::HandleMsg(raw)) == (state, false),
{
}

/// A submit with nothing in the compose input, or with no compose input,
/// sends nothing, leaves the input as it is and does not draw the screen
/// again.
pub proof fn empty_submit_changes_nothing(state: SessionState)
    requires
        state.chat_input matches Some(typed) ==> typed.len() == 0,
    ensures
        state.update(Msg::SubmitMessage) == (state, false),
{
}

/// A submit with something typed offers exactly one frame to the queue,
/// empties the input, and leaves the log to the relay's echo.
pub proof fn submit_sends_one_frame(state: SessionState, typed: Seq<char>)
    requires
        state.chat_input == Some(typed),
        typed.len() > 0,
    ensures
        !state.update(Msg::SubmitMessage).1,
        state.update(Msg::SubmitMessage).0 == (SessionState {
            wss: state.wss.offer(encode_text(message_frame(outbound_text(typed)))),
            chat_input: Some(Seq::empty()),
            ..state
        }),
        state.wss.open && state.wss.pending.len() < state.wss.capacity ==> state.update(
            Msg::SubmitMessage,
        ).0.wss.pending == state.wss.pending.push(
            encode_text(message_frame(outbound_text(typed))),
        ),
{
}

/// The log only grows, and only at its end: whatever happens, the messages
/// that were there stay, in their order, and at most one is added.
pub proof fn log_only_grows(state: SessionState, msg: Msg)
    ensures
        state.messages.len() <= state.update(msg).0.messages.len() <= state.messages.len() + 1,
        state.update(msg).0.messages.take(state.messages.len() as int) == state.messages,
        state.update(msg).1 || state.update(msg).0.messages == state.messages,
{
    let after = state.update(msg).0.messages;
    assert(after.take(state.messages.len() as int) =~= state.messages);
}

/// The theme is local: nothing but a toggle changes it, and a toggle changes
/// nothing else.
pub proof fn theme_is_local(state: SessionState, msg: Msg)
    ensures
        state.update(msg).0.is_dark != state.is_dark <==> msg is ToggleTheme,
        msg is ToggleTheme ==> state.update(msg).0 == (SessionState {
            is_dark: !state.is_dark,
            ..state
        }),
{
}

} // verus!
