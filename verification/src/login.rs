//! The entry screen: a background picked among a few gradients, a field for
//! the name, and a button that stays disabled while the field is empty. The
//! name goes on to [`crate::chat::Chat::create`] as it was typed.

use vstd::prelude::*;

verus! {

/// How many backgrounds there are to pick from.
pub const GRADIENTS: usize = 5;

/// The gradient at a place in the list.
pub open spec fn gradient_of(index: int) -> Seq<char> {
    if index == 0 {
        "linear-gradient(to right, #ffecd2, #fcb69f)"@
    } else if index == 1 {
        "linear-gradient(to right, #a1c4fd, #c2e9fb)"@
    } else if index == 2 {
        "linear-gradient(to right, #fdfcfb, #e2d1c3)"@
    } else if index == 3 {
        "linear-gradient(to right, #667eea, #764ba2)"@
    } else {
        "linear-gradient(to right, #89f7fe, #66a6ff)"@
    }
}

/// The style of the screen with the gradient at a place in the list.
pub open spec fn background_of(index: int) -> Seq<char> {
    "min-height:100vh; background: "@ + gradient_of(index) + ";"@
}

/// What the entry screen shows.
#[derive(Debug)]
pub struct LoginPage {
    pub background_style: String,
    pub disabled: bool,
}

/// The gradient at a place in the list.
pub fn gradient(index: usize) -> (css: &'static str)
    requires
        index < GRADIENTS,
    ensures
        css@ == gradient_of(index as int),
{
    if index == 0 {
        "linear-gradient(to right, #ffecd2, #fcb69f)"
    } else if index == 1 {
        "linear-gradient(to right, #a1c4fd, #c2e9fb)"
    } else if index == 2 {
        "linear-gradient(to right, #fdfcfb, #e2d1c3)"
    } else if index == 3 {
        "linear-gradient(to right, #667eea, #764ba2)"
    } else {
        "linear-gradient(to right, #89f7fe, #66a6ff)"
    }
}

/// The entry screen for what stands in the name field, with the background
/// at `pick`. The button is disabled exactly while the name is empty.
pub fn login(username: &str, pick: usize) -> (page: LoginPage)
    requires
        pick < GRADIENTS,
    ensures
        page.background_style@ == background_of(pick as int),
        page.disabled == (username@.len() == 0),
{
    let background_style = String::from_str("min-height:100vh; background: ").concat(
        gradient(pick),
    ).concat(";");
    LoginPage { background_style, disabled: username.is_empty() }
}

} // verus!
