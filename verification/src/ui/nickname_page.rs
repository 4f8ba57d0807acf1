//! The page on which a user who has none yet picks a nickname.

use crate::auth::LoginErrors;
use crate::ui::input::{
    ascii_graphic, byte_len, empty_field, field_cursor, field_text, handle_key, handled,
    is_graphic, reset, value, KeyCode, KeyEvent,
};
use crate::ui::pages::PageResults;
use tui_input::Input;
use vstd::prelude::*;

verus! {

/// The nickname page: the nickname, whether there is something new to draw,
/// and the error to show.
#[derive(Debug)]
pub struct NicknamePage {
    pub nickname: Input,
    pub needs_update: bool,
    pub error_message: Option<String>,
}

/// The longest nickname that the page takes, in bytes.
pub const NICKNAME_LIMIT: usize = 32;

impl NicknamePage {
    /// Whether the page is as it first shows: nothing typed, no error,
    /// everything to draw.
    pub open spec fn is_initial(&self) -> bool {
        &&& field_text(self.nickname) == Seq::<char>::empty()
        &&& field_cursor(self.nickname) == 0
        &&& self.needs_update
        &&& self.error_message is None
    }

    /// The page as it first shows.
    pub fn new() -> (r: Self)
        ensures
            r.is_initial(),
    {
        Self { nickname: empty_field(), needs_update: true, error_message: None }
    }

    /// Whether `after` and `r` are the page's answer to `key` on `before`.
    ///
    /// Escape asks to leave the program. A visible ASCII character goes to
    /// the field while the nickname is shorter than 32 bytes, and backspace
    /// goes to it always. Enter asks for the nickname, or complains where
    /// there is none.
    pub open spec fn answers(before: Self, key: KeyEvent, after: Self, r: Option<PageResults>)
        -> bool {
        match key.code {
            KeyCode::Esc => after == before && r == Some(PageResults::Exit),
            KeyCode::Char(c) => {
                &&& r is None
                &&& after.error_message == before.error_message
                &&& if byte_len(field_text(before.nickname)) < NICKNAME_LIMIT && is_graphic(c) {
                    handled(before.nickname, after.nickname, Some(c), key) && after.needs_update
                } else {
                    after.nickname == before.nickname && after.needs_update
                        == before.needs_update
                }
            },
            KeyCode::Backspace => {
                &&& r is None
                &&& after.error_message == before.error_message
                &&& handled(before.nickname, after.nickname, None, key)
                &&& after.needs_update
            },
            KeyCode::Enter => if field_text(before.nickname).len() == 0 {
                &&& r is None
                &&& after.nickname == before.nickname
                &&& after.needs_update
                &&& after.error_message matches Some(message) && message@
                    == "Nickname can't be empty"@
            } else {
                &&& after == before
                &&& r matches Some(PageResults::NicknameSelected(nickname))
                &&& nickname@ == field_text(before.nickname)
            },
            _ => after == before && r is None,
        }
    }

    /// Handles a key; see [`NicknamePage::answers`].
    pub fn key_event(&mut self, key: &KeyEvent) -> (r: Option<PageResults>)
        ensures
            Self::answers(*old(self), *key, *final(self), r),
    {
        match key.code {
            KeyCode::Esc => {
                return Some(PageResults::Exit);
            },
            KeyCode::Char(c) => {
                if value(&self.nickname).len() < NICKNAME_LIMIT && ascii_graphic(c) {
                    handle_key(&mut self.nickname, Some(c), key.modifiers, key.kind);
                    self.needs_update = true;
                }
            },
            KeyCode::Backspace => {
                handle_key(&mut self.nickname, None, key.modifiers, key.kind);
                self.needs_update = true;
            },
            KeyCode::Enter => {
                if value(&self.nickname).is_empty() {
                    self.error_message = Some("Nickname can't be empty".to_owned());
                    self.needs_update = true;
                    return None;
                }
                return Some(PageResults::NicknameSelected(value(&self.nickname).to_owned()));
            },
            _ => {},
        }
        None
    }

    /// Whether `after` is `before` with a refused nickname shown: what was
    /// typed stays, the message is on the page and the page is to be drawn.
    pub open spec fn shows_error(before: Self, message: Seq<char>, after: Self) -> bool {
        &&& after.nickname == before.nickname
        &&& after.needs_update
        &&& after.error_message matches Some(shown) && shown@ == message
    }

    /// Shows an error.
    pub fn nickname_error(&mut self, error: &LoginErrors)
        ensures
            Self::shows_error(*old(self), error.text(), *final(self)),
    {
        self.needs_update = true;
        self.error_message = Some(error.message());
    }

    /// Whether there is something new to draw.
    pub fn needs_update(&self) -> (r: bool)
        ensures
            r == self.needs_update,
    {
        self.needs_update
    }

    /// Takes note that the page was drawn.
    pub fn drawn(&mut self)
        ensures
            *final(self) == (NicknamePage { needs_update: false, ..*old(self) }),
    {
        self.needs_update = false;
    }
}

} // verus!
