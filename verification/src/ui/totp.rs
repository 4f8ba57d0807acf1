//! The page on which the user types the code of the second factor.

use crate::auth::TotpErrors;
use crate::ui::input::{
    ascii_digit, byte_len, empty_field, field_cursor, field_text, handle_key, handled,
    is_decimal, reset, value, KeyCode, KeyEvent,
};
use crate::ui::pages::PageResults;
use tui_input::Input;
use vstd::prelude::*;

verus! {

/// The second-factor page: the code, whether there is something new to draw,
/// and the error to show.
#[derive(Debug)]
pub struct TotpPage {
    pub totp_code: Input,
    pub needs_update: bool,
    pub error_message: Option<String>,
}

/// The length of a code, in digits.
pub const CODE_LENGTH: usize = 6;

impl TotpPage {
    /// Whether the page is as it first shows: nothing typed, no error,
    /// everything to draw.
    pub open spec fn is_initial(&self) -> bool {
        &&& field_text(self.totp_code) == Seq::<char>::empty()
        &&& field_cursor(self.totp_code) == 0
        &&& self.needs_update
        &&& self.error_message is None
    }

    /// The page as it first shows.
    pub fn new() -> (r: Self)
        ensures
            r.is_initial(),
    {
        Self { totp_code: empty_field(), needs_update: true, error_message: None }
    }

    /// Whether `after` and `r` are the page's answer to `key` on `before`.
    ///
    /// Escape asks to leave the program. A digit goes to the field while the
    /// code is shorter than six bytes, and backspace goes to it always. Enter
    /// asks for the login with a code of six bytes, and complains of any
    /// other.
    pub open spec fn answers(before: Self, key: KeyEvent, after: Self, r: Option<PageResults>)
        -> bool {
        match key.code {
            KeyCode::Esc => after == before && r == Some(PageResults::Exit),
            KeyCode::Char(c) => {
                &&& r is None
                &&& after.error_message == before.error_message
                &&& if byte_len(field_text(before.totp_code)) < CODE_LENGTH && is_decimal(c) {
                    handled(before.totp_code, after.totp_code, Some(c), key) && after.needs_update
                } else {
                    after.totp_code == before.totp_code && after.needs_update
                        == before.needs_update
                }
            },
            KeyCode::Backspace => {
                &&& r is None
                &&& after.error_message == before.error_message
                &&& handled(before.totp_code, after.totp_code, None, key)
                &&& after.needs_update
            },
            KeyCode::Enter => if byte_len(field_text(before.totp_code)) != CODE_LENGTH {
                &&& r is None
                &&& after.totp_code == before.totp_code
                &&& after.needs_update
                &&& after.error_message matches Some(message) && message@ == "2FA code too short"@
            } else {
                &&& after == before
                &&& r matches Some(PageResults::Totp(code))
                &&& code@ == field_text(before.totp_code)
            },
            _ => after == before && r is None,
        }
    }

    /// Handles a key; see [`TotpPage::answers`].
    pub fn key_event(&mut self, key: &KeyEvent) -> (r: Option<PageResults>)
        ensures
            Self::answers(*old(self), *key, *final(self), r),
    {
        match key.code {
            KeyCode::Esc => {
                return Some(PageResults::Exit);
            },
            KeyCode::Char(c) => {
                if value(&self.totp_code).len() < CODE_LENGTH && ascii_digit(c) {
                    handle_key(&mut self.totp_code, Some(c), key.modifiers, key.kind);
                    self.needs_update = true;
                }
            },
            KeyCode::Backspace => {
                handle_key(&mut self.totp_code, None, key.modifiers, key.kind);
                self.needs_update = true;
            },
            KeyCode::Enter => {
                if value(&self.totp_code).len() != CODE_LENGTH {
                    self.error_message = Some("2FA code too short".to_owned());
                    self.needs_update = true;
                    return None;
                }
                return Some(PageResults::Totp(value(&self.totp_code).to_owned()));
            },
            _ => {},
        }
        None
    }

    /// Whether the page shows a refused code: the field is emptied, the
    /// message is on the page and the page is to be drawn.
    pub open spec fn shows_error(&self, message: Seq<char>) -> bool {
        &&& field_text(self.totp_code) == Seq::<char>::empty()
        &&& field_cursor(self.totp_code) == 0
        &&& self.needs_update
        &&& self.error_message matches Some(shown) && shown@ == message
    }

    /// Shows an error and empties the code.
    pub fn totp_error(&mut self, error: &TotpErrors)
        ensures
            final(self).shows_error(error.text()),
    {
        reset(&mut self.totp_code);
        self.needs_update = true;
        self.error_message = Some(error.message());
    }

    /// Whether there is something new to draw.
    pub fn needs_update(&self) -> (r: bool)
        ensures
            r == self.needs_update,
    {
        self.needs_update
    }

    /// Takes note that the page was drawn.
    pub fn drawn(&mut self)
        ensures
            *final(self) == (TotpPage { needs_update: false, ..*old(self) }),
    {
        self.needs_update = false;
    }
}

} // verus!
