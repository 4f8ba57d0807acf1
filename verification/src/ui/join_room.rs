//! The page on which the user types the id of the room to join.

use crate::ui::input::{
    ascii_alphanumeric, ascii_upper, byte_len, empty_field, field_cursor, field_text, handle_key,
    handled, is_alphanumeric, reset, upper, value, KeyCode, KeyEvent,
};
use crate::ui::pages::PageResults;
use crate::websocket::events::errors::EventError;
use tui_input::Input;
use vstd::prelude::*;

verus! {

/// The join page: the room's id, whether there is something new to draw, and
/// the error to show.
#[derive(Debug)]
pub struct JoinRoomPage {
    pub input: Input,
    pub needs_update: bool,
    pub error_message: Option<String>,
}

/// The length of a room's id, in bytes.
pub const ROOM_ID_LENGTH: usize = 6;

impl JoinRoomPage {
    /// Whether the page is as it first shows: nothing typed, no error,
    /// everything to draw.
    pub open spec fn is_initial(&self) -> bool {
        &&& field_text(self.input) == Seq::<char>::empty()
        &&& field_cursor(self.input) == 0
        &&& self.needs_update
        &&& self.error_message is None
    }

    /// The page as it first shows.
    pub fn new() -> (r: Self)
        ensures
            r.is_initial(),
    {
        Self { input: empty_field(), needs_update: true, error_message: None }
    }

    /// Whether `after` and `r` are the page's answer to `key` on `before`.
    ///
    /// Escape asks to go back to the menu. An ASCII letter or digit goes to
    /// the field in upper case while the id is shorter than six bytes, and
    /// backspace goes to it always. Enter asks to join the room where the id
    /// has six bytes, and does nothing where it has not.
    pub open spec fn answers(before: Self, key: KeyEvent, after: Self, r: Option<PageResults>)
        -> bool {
        match key.code {
            KeyCode::Esc => after == before && r == Some(PageResults::BackToMenu),
            KeyCode::Char(c) => {
                &&& r is None
                &&& after.error_message == before.error_message
                &&& if byte_len(field_text(before.input)) < ROOM_ID_LENGTH && is_alphanumeric(c) {
                    handled(before.input, after.input, Some(upper(c)), key) && after.needs_update
                } else {
                    after.input == before.input && after.needs_update == before.needs_update
                }
            },
            KeyCode::Backspace => {
                &&& r is None
                &&& after.error_message == before.error_message
                &&& handled(before.input, after.input, None, key)
                &&& after.needs_update
            },
            KeyCode::Enter => {
                &&& after == before
                &&& if byte_len(field_text(before.input)) == ROOM_ID_LENGTH {
                    r matches Some(PageResults::JoinRoom(room_id)) && room_id@ == field_text(
                        before.input,
                    )
                } else {
                    r is None
                }
            },
            _ => after == before && r is None,
        }
    }

    /// Handles a key; see [`JoinRoomPage::answers`].
    pub fn key_event(&mut self, key: &KeyEvent) -> (r: Option<PageResults>)
        ensures
            Self::answers(*old(self), *key, *final(self), r),
    {
        match key.code {
            KeyCode::Esc => {
                return Some(PageResults::BackToMenu);
            },
            KeyCode::Char(c) => {
                if value(&self.input).len() < ROOM_ID_LENGTH && ascii_alphanumeric(c) {
                    handle_key(&mut self.input, Some(ascii_upper(c)), key.modifiers, key.kind);
                    self.needs_update = true;
                }
            },
            KeyCode::Backspace => {
                handle_key(&mut self.input, None, key.modifiers, key.kind);
                self.needs_update = true;
            },
            KeyCode::Enter => {
                if value(&self.input).len() == ROOM_ID_LENGTH {
                    return Some(PageResults::JoinRoom(value(&self.input).to_owned()));
                }
            },
            _ => {},
        }
        None
    }

    /// Whether the page shows a refused room: the field is emptied, the
    /// message is on the page and the page is to be drawn.
    pub open spec fn shows_error(&self, message: Seq<char>) -> bool {
        &&& field_text(self.input) == Seq::<char>::empty()
        &&& field_cursor(self.input) == 0
        &&& self.needs_update
        &&& self.error_message matches Some(shown) && shown@ == message
    }

    /// Shows an error and empties the id.
    pub fn join_error(&mut self, error: &EventError)
        ensures
            final(self).shows_error(error.text()),
    {
        self.error_message = Some(error.message());
        self.needs_update = true;
        reset(&mut self.input);
    }

    /// Whether there is something new to draw.
    pub fn needs_update(&self) -> (r: bool)
        ensures
            r == self.needs_update,
    {
        self.needs_update
    }

    /// Takes note that the page was drawn.
    pub fn drawn(&mut self)
        ensures
            *final(self) == (JoinRoomPage { needs_update: false, ..*old(self) }),
    {
        self.needs_update = false;
    }
}

} // verus!
