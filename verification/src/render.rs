//! What a session looks like: the roster as cards, the log as rows, and the
//! colours of the theme. The projection reads the session and changes
//! nothing; the same session always gives the same page.

use crate::chat::{avatar_url, roster_of, UserProfile, UserProfileView};
use crate::payload::{MessageData, MessageDataView};
use crate::wire::same_text;
use vstd::prelude::*;

verus! {

/// What a message shows: a picture, for a body that ends in `.gif`, or the
/// body as text.
#[derive(Debug)]
pub enum Content {
    Image(String),
    Text(String),
}

pub enum ContentView {
    Image(Seq<char>),
    Text(Seq<char>),
}

impl View for Content {
    type V = ContentView;

    open spec fn view(&self) -> ContentView {
        match self {
            Content::Image(src) => ContentView::Image(src@),
            Content::Text(body) => ContentView::Text(body@),
        }
    }
}

/// A participant in the sidebar.
#[derive(Debug)]
pub struct UserCard {
    pub avatar: String,
    pub name: String,
    pub caption: &'static str,
}

pub struct UserCardView {
    pub avatar: Seq<char>,
    pub name: Seq<char>,
    pub caption: Seq<char>,
}

impl View for UserCard {
    type V = UserCardView;

    open spec fn view(&self) -> UserCardView {
        UserCardView { avatar: self.avatar@, name: self.name@, caption: self.caption@ }
    }
}

/// A message in the log. `avatar` is the picture of the first participant
/// with the sender's name, and `None` where the roster has no such name.
#[derive(Debug)]
pub struct MessageRow {
    pub avatar: Option<String>,
    pub from: String,
    pub content: Content,
}

pub struct MessageRowView {
    pub avatar: Option<Seq<char>>,
    pub from: Seq<char>,
    pub content: ContentView,
}

impl View for MessageRow {
    type V = MessageRowView;

    open spec fn view(&self) -> MessageRowView {
        MessageRowView {
            avatar: match self.avatar {
                Some(src) => Some(src@),
                None => None,
            },
            from: self.from@,
            content: self.content@,
        }
    }
}

/// The style classes of a theme, and the label of the button that leads to
/// the other one.
#[derive(Clone, Copy, Debug)]
pub struct Palette {
    pub theme_class: &'static str,
    pub sidebar_bg: &'static str,
    pub user_card_bg: &'static str,
    pub message_bg: &'static str,
    pub input_bg: &'static str,
    pub toggle_label: &'static str,
}

impl Palette {
    /// The palette of the dark theme, or of the light one.
    pub open spec fn of(is_dark: bool) -> Palette {
        if is_dark {
            Palette {
                theme_class: "bg-gray-900 text-white",
                sidebar_bg: "bg-gray-800",
                user_card_bg: "bg-gray-700",
                message_bg: "bg-gray-700",
                input_bg: "bg-gray-800 text-white",
                toggle_label: "☀ Light Mode",
            }
        } else {
            Palette {
                theme_class: "bg-white text-black",
                sidebar_bg: "bg-gray-100",
                user_card_bg: "bg-white",
                message_bg: "bg-gray-100",
                input_bg: "bg-gray-100 text-black",
                toggle_label: "🌙 Dark Mode",
            }
        }
    }

    pub fn new(is_dark: bool) -> (palette: Palette)
        ensures
            palette == Palette::of(is_dark),
    {
        if is_dark {
            Palette {
                theme_class: "bg-gray-900 text-white",
                sidebar_bg: "bg-gray-800",
                user_card_bg: "bg-gray-700",
                message_bg: "bg-gray-700",
                input_bg: "bg-gray-800 text-white",
                toggle_label: "☀ Light Mode",
            }
        } else {
            Palette {
                theme_class: "bg-white text-black",
                sidebar_bg: "bg-gray-100",
                user_card_bg: "bg-white",
                message_bg: "bg-gray-100",
                input_bg: "bg-gray-100 text-black",
                toggle_label: "🌙 Dark Mode",
            }
        }
    }
}

/// The whole page.
#[derive(Debug)]
pub struct ChatPage {
    pub palette: Palette,
    pub users: Vec<UserCard>,
    pub messages: Vec<MessageRow>,
}

pub struct ChatPageView {
    pub palette: Palette,
    pub users: Seq<UserCardView>,
    pub messages: Seq<MessageRowView>,
}

impl View for ChatPage {
    type V = ChatPageView;

    open spec fn view(&self) -> ChatPageView {
        ChatPageView {
            palette: self.palette,
            users: Seq::new(self.users@.len(), |i: int| self.users@[i]@),
            messages: Seq::new(self.messages@.len(), |i: int| self.messages@[i]@),
        }
    }
}

/// Whether a body stands for a picture: it ends in the four characters
/// `.gif`. Nothing else of the body is looked at.
pub open spec fn shows_image(body: Seq<char>) -> bool {
    body.len() >= 4 && body.subrange(body.len() - 4, body.len() as int) == ".gif"@
}

/// What a body shows.
pub open spec fn content_of(body: Seq<char>) -> ContentView {
    if shows_image(body) {
        ContentView::Image(body)
    } else {
        ContentView::Text(body)
    }
}

/// The picture of the first participant with a name, if the roster has one.
pub open spec fn avatar_of(users: Seq<UserProfileView>, name: Seq<char>) -> Option<Seq<char>>
    decreases users.len(),
{
    if users.len() == 0 {
        None
    } else if users.first().name == name {
        Some(users.first().avatar)
    } else {
        avatar_of(users.drop_first(), name)
    }
}

/// The card of a participant.
pub open spec fn card_of(user: UserProfileView) -> UserCardView {
    UserCardView { avatar: user.avatar, name: user.name, caption: "Hi there!"@ }
}

/// The row of a message, with its sender looked up in the roster.
pub open spec fn row_of(users: Seq<UserProfileView>, message: MessageDataView) -> MessageRowView {
    MessageRowView {
        avatar: avatar_of(users, message.from),
        from: message.from,
        content: content_of(message.message),
    }
}

/// The page of a roster, a log and a theme.
pub open spec fn page_of(
    users: Seq<UserProfileView>,
    messages: Seq<MessageDataView>,
    is_dark: bool,
) -> ChatPageView {
    ChatPageView {
        palette: Palette::of(is_dark),
        users: Seq::new(users.len(), |i: int| card_of(users[i])),
        messages: Seq::new(messages.len(), |i: int| row_of(users, messages[i])),
    }
}

/// The participants of a list as mathematical values.
pub open spec fn profiles(users: Seq<UserProfile>) -> Seq<UserProfileView> {
    Seq::new(users.len(), |i: int| users[i]@)
}

/// The messages of a list as mathematical values.
pub open spec fn entries(messages: Seq<MessageData>) -> Seq<MessageDataView> {
    Seq::new(messages.len(), |i: int| messages[i]@)
}

/// A sender whose name no participant has is shown without a picture.
pub proof fn absent_sender_has_no_avatar(users: Seq<UserProfileView>, name: Seq<char>)
    requires
        forall|i: int| 0 <= i < users.len() ==> (#[trigger] users[i]).name != name,
    ensures
        avatar_of(users, name) is None,
    decreases users.len(),
{
    if users.len() > 0 {
        let rest = users.drop_first();
        assert forall|i: int| 0 <= i < rest.len() implies (#[trigger] rest[i]).name != name by {
            assert(rest[i] == users[i + 1]);
        }
        absent_sender_has_no_avatar(rest, name);
    }
}

/// A sender who is on a roster made from names is shown with the picture
/// that belongs to the name, and one who is not, with none.
pub proof fn roster_avatar(names: Seq<Seq<char>>, name: Seq<char>)
    ensures
        avatar_of(roster_of(names), name) == if names.contains(name) {
            Some(avatar_url(name))
        } else {
            None
        },
    decreases names.len(),
{
    let users = roster_of(names);
    if names.len() > 0 {
        assert(users.drop_first() =~= roster_of(names.drop_first()));
        roster_avatar(names.drop_first(), name);
        if names[0] == name {
        } else if names.contains(name) {
            let k = choose|k: int| 0 <= k < names.len() && names[k] == name;
            assert(names.drop_first()[k - 1] == name);
        } else if names.drop_first().contains(name) {
            let k = choose|k: int| 0 <= k < names.drop_first().len() && names.drop_first()[k] == name;
            assert(names[k + 1] == name);
        }
    }
}

/// Any body with `.gif` at its end shows a picture, and a body shorter than
/// that suffix never does.
pub proof fn suffix_decides(body: Seq<char>)
    ensures
        shows_image(body + ".gif"@),
        body.len() < 4 ==> !shows_image(body),
{
    reveal_strlit(".gif");
    let whole = body + ".gif"@;
    assert(".gif"@.len() == 4);
    assert(whole.subrange(whole.len() - 4, whole.len() as int) =~= ".gif"@);
}

/// Whether a body stands for a picture.
pub fn is_image(body: &str) -> (image: bool)
    ensures
        image == shows_image(body@),
{
    let n = body.unicode_len();
    if n < 4 {
        return false;
    }
    let image = body.get_char(n - 4) == '.' && body.get_char(n - 3) == 'g' && body.get_char(n - 2)
        == 'i' && body.get_char(n - 1) == 'f';
    proof {
        reveal_strlit(".gif");
        let tail = body@.subrange(n - 4, n as int);
        assert(".gif"@.len() == 4);
        if image {
            assert(tail =~= ".gif"@);
        } else {
            assert(tail[0] == body@[n - 4]);
            assert(tail[1] == body@[n - 3]);
            assert(tail[2] == body@[n - 2]);
            assert(tail[3] == body@[n - 1]);
        }
    }
    image
}

/// What a body shows.
pub fn content_for(body: &str) -> (content: Content)
    ensures
        content@ == content_of(body@),
{
    if is_image(body) {
        Content::Image(body.to_owned())
    } else {
        Content::Text(body.to_owned())
    }
}

/// Looks a sender up in the roster, by name, and gives the picture of the
/// first participant found.
pub fn avatar_in(users: &Vec<UserProfile>, name: &str) -> (avatar: Option<String>)
    ensures
        match avatar {
            Some(src) => avatar_of(profiles(users@), name@) == Some(src@),
            None => avatar_of(profiles(users@), name@) is None,
        },
{
    let ghost all = profiles(users@);
    let mut i: usize = 0;
    assert(all.skip(0) =~= all);
    while i < users.len()
        invariant
            i <= users@.len(),
            all == profiles(users@),
            avatar_of(all, name@) == avatar_of(all.skip(i as int), name@),
        decreases users@.len() - i,
    {
        proof {
            assert(all.skip(i as int).first() == users@[i as int]@);
            assert(all.skip(i as int).drop_first() =~= all.skip(i + 1));
        }
        if same_text(users[i].name.as_str(), name) {
            return Some(users[i].avatar.clone());
        }
        i += 1;
    }
    assert(all.skip(i as int).len() == 0);
    None
}

/// The card of a participant.
pub fn card_for(user: &UserProfile) -> (card: UserCard)
    ensures
        card@ == card_of(user@),
{
    UserCard { avatar: user.avatar.clone(), name: user.name.clone(), caption: "Hi there!" }
}

/// The row of a message.
pub fn row_for(users: &Vec<UserProfile>, message: &MessageData) -> (row: MessageRow)
    ensures
        row@ == row_of(profiles(users@), message@),
{
    MessageRow {
        avatar: avatar_in(users, message.from.as_str()),
        from: message.from.clone(),
        content: content_for(message.message.as_str()),
    }
}

/// The page of a roster, a log and a theme: a card for each participant, in
/// the roster's order, and a row for each message, in the log's order.
pub fn project(users: &Vec<UserProfile>, messages: &Vec<MessageData>, is_dark: bool) -> (page:
    ChatPage)
    ensures
        page@ == page_of(profiles(users@), entries(messages@), is_dark),
{
    let mut cards: Vec<UserCard> = Vec::new();
    let mut i: usize = 0;
    while i < users.len()
        invariant
            i <= users@.len(),
            cards@.len() == i,
            forall|j: int| 0 <= j < i ==> (#[trigger] cards@[j])@ == card_of(users@[j]@),
        decreases users@.len() - i,
    {
        cards.push(card_for(&users[i]));
        i += 1;
    }
    let mut rows: Vec<MessageRow> = Vec::new();
    let mut k: usize = 0;
    while k < messages.len()
        invariant
            k <= messages@.len(),
            rows@.len() == k,
            forall|j: int|
                0 <= j < k ==> (#[trigger] rows@[j])@ == row_of(profiles(users@), messages@[j]@),
        decreases messages@.len() - k,
    {
        rows.push(row_for(users, &messages[k]));
        k += 1;
    }
    let page = ChatPage { palette: Palette::new(is_dark), users: cards, messages: rows };
    proof {
        let want = page_of(profiles(users@), entries(messages@), is_dark);
        assert(page@.users =~= want.users);
        assert(page@.messages =~= want.messages);
    }
    page
}

} // verus!
