//! The page on which the user logs in with e-mail and password.

use crate::auth::LoginErrors;
use crate::ui::input::{
    ascii_graphic, byte_len, empty_field, field_cursor, field_text, handle_key, handled,
    is_graphic, reset, value, KeyCode, KeyEvent,
};
use crate::ui::pages::PageResults;
use tui_input::Input;
use vstd::prelude::*;

verus! {

/// The two fields of the page.
#[derive(Debug, Clone, Copy, PartialEq, Eq, Structural)]
pub enum Field {
    Email,
    Password,
}

impl Field {
    /// The other field.
    pub open spec fn other(self) -> Field {
        match self {
            Field::Email => Field::Password,
            Field::Password => Field::Email,
        }
    }
}

/// The login page: the two fields, the one under the cursor, whether there
/// is something new to draw, and the error to show.
#[derive(Debug)]
pub struct LoginPage {
    pub email: Input,
    pub password: Input,
    pub selected_field: Field,
    pub needs_update: bool,
    pub error_message: Option<String>,
}

/// How an attempt to log in from this page ended.
#[derive(Debug)]
pub enum LoginResult {
    Login(String),
    Abort,
}

/// The longest e-mail address and the longest password that the page takes,
/// in bytes.
pub const FIELD_LIMIT: usize = 32;

impl LoginPage {
    /// Whether the page is as it first shows: nothing typed, no error,
    /// everything to draw.
    pub open spec fn is_initial(&self) -> bool {
        &&& field_text(self.email) == Seq::<char>::empty()
        &&& field_cursor(self.email) == 0
        &&& field_text(self.password) == Seq::<char>::empty()
        &&& field_cursor(self.password) == 0
        &&& self.selected_field == Field::Email
        &&& self.needs_update
        &&& self.error_message is None
    }

    /// The page as it first shows.
    pub fn new() -> (r: Self)
        ensures
            r.is_initial(),
    {
        Self {
            email: empty_field(),
            password: empty_field(),
            selected_field: Field::Email,
            needs_update: true,
            error_message: None,
        }
    }

    /// The field under the cursor.
    pub open spec fn current(&self) -> Input {
        match self.selected_field {
            Field::Email => self.email,
            Field::Password => self.password,
        }
    }

    /// The field that is not under the cursor.
    pub open spec fn resting(&self) -> Input {
        match self.selected_field {
            Field::Email => self.password,
            Field::Password => self.email,
        }
    }

    /// Whether `after` and `r` are the page's answer to `key` on `before`.
    ///
    /// Escape asks to leave the program. A visible ASCII character goes to
    /// the field under the cursor while that field is shorter than 32 bytes,
    /// and backspace goes to it always. Tab moves the cursor to the other
    /// field. Enter moves it from the first field to the second, and in the
    /// second asks for the login.
    pub open spec fn answers(before: Self, key: KeyEvent, after: Self, r: Option<PageResults>)
        -> bool {
        match key.code {
            KeyCode::Esc => after == before && r == Some(PageResults::Exit),
            KeyCode::Char(c) => {
                &&& r is None
                &&& after.selected_field == before.selected_field
                &&& after.error_message == before.error_message
                &&& after.resting() == before.resting()
                &&& if byte_len(field_text(before.current())) < FIELD_LIMIT && is_graphic(c) {
                    handled(before.current(), after.current(), Some(c), key) && after.needs_update
                } else {
                    after.current() == before.current() && after.needs_update
                        == before.needs_update
                }
            },
            KeyCode::Backspace => {
                &&& r is None
                &&& after.selected_field == before.selected_field
                &&& after.error_message == before.error_message
                &&& after.resting() == before.resting()
                &&& handled(before.current(), after.current(), None, key)
                &&& after.needs_update
            },
            KeyCode::Tab => r is None && after == (LoginPage {
                selected_field: before.selected_field.other(),
                needs_update: true,
                ..before
            }),
            KeyCode::Enter => if before.selected_field == Field::Email {
                r is None && after == (LoginPage {
                    selected_field: Field::Password,
                    needs_update: true,
                    ..before
                })
            } else {
                &&& after == before
                &&& r matches Some(PageResults::Login((email, password)))
                &&& email@ == field_text(before.email)
                &&& password@ == field_text(before.password)
            },
            _ => after == before && r is None,
        }
    }

    /// Handles a key; see [`LoginPage::answers`].
    pub fn key_event(&mut self, key: &KeyEvent) -> (r: Option<PageResults>)
        ensures
            Self::answers(*old(self), *key, *final(self), r),
    {
        match key.code {
            KeyCode::Esc => {
                return Some(PageResults::Exit);
            },
            KeyCode::Char(c) => {
                match self.selected_field {
                    Field::Email => {
                        if value(&self.email).len() < FIELD_LIMIT && ascii_graphic(c) {
                            handle_key(&mut self.email, Some(c), key.modifiers, key.kind);
                            self.needs_update = true;
                        }
                    },
                    Field::Password => {
                        if value(&self.password).len() < FIELD_LIMIT && ascii_graphic(c) {
                            handle_key(&mut self.password, Some(c), key.modifiers, key.kind);
                            self.needs_update = true;
                        }
                    },
                }
            },
            KeyCode::Backspace => {
                match self.selected_field {
                    Field::Email => handle_key(&mut self.email, None, key.modifiers, key.kind),
                    Field::Password => handle_key(
                        &mut self.password,
                        None,
                        key.modifiers,
                        key.kind,
                    ),
                }
                self.needs_update = true;
            },
            KeyCode::Tab => self.focus_other_widget(),
            KeyCode::Enter => {
                if self.selected_field == Field::Email {
                    self.focus_other_widget();
                } else {
                    return Some(
                        PageResults::Login(
                            (value(&self.email).to_owned(), value(&self.password).to_owned()),
                        ),
                    );
                }
            },
            _ => {},
        }
        None
    }

    /// Whether `after` is `before` with a failed login shown: the e-mail
    /// stays, the password is emptied and under the cursor, the message is
    /// on the page and the page is to be drawn.
    pub open spec fn shows_error(before: Self, message: Seq<char>, after: Self) -> bool {
        &&& after.email == before.email
        &&& field_text(after.password) == Seq::<char>::empty()
        &&& field_cursor(after.password) == 0
        &&& after.selected_field == Field::Password
        &&& after.needs_update
        &&& after.error_message matches Some(shown) && shown@ == message
    }

    /// Shows an error, empties the password and puts the cursor there.
    pub fn login_error(&mut self, error: &LoginErrors)
        ensures
            Self::shows_error(*old(self), error.text(), *final(self)),
    {
        reset(&mut self.password);
        self.selected_field = Field::Password;
        self.needs_update = true;
        self.error_message = Some(error.message());
    }

    /// Moves the cursor to the other field.
    pub fn focus_other_widget(&mut self)
        ensures
            *final(self) == (LoginPage {
                selected_field: old(self).selected_field.other(),
                needs_update: true,
                ..*old(self)
            }),
    {
        self.needs_update = true;
        self.selected_field = match self.selected_field {
            Field::Email => Field::Password,
            Field::Password => Field::Email,
        }
    }

    /// Whether there is something new to draw.
    pub fn needs_update(&self) -> (r: bool)
        ensures
            r == self.needs_update,
    {
        self.needs_update
    }

    /// Takes note that the page was drawn.
    pub fn drawn(&mut self)
        ensures
            *final(self) == (LoginPage { needs_update: false, ..*old(self) }),
    {
        self.needs_update = false;
    }
}

} // verus!
