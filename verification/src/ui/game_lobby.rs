//! The page that shows the id of a room while its owner waits for a guest.

use crate::ui::input::{KeyCode, KeyEvent};
use crate::ui::pages::PageResults;
use vstd::prelude::*;

verus! {

/// The lobby page: the room's id, and whether there is something new to draw.
#[derive(Debug, Clone)]
pub struct GameLobbyPage {
    pub room_id: String,
    pub needs_update: bool,
}

impl GameLobbyPage {
    /// The page as it first shows.
    pub fn new(room_id: String) -> (r: Self)
        ensures
            r.room_id == room_id,
            r.needs_update,
    {
        Self { room_id, needs_update: true }
    }

    /// Whether `after` and `r` are the page's answer to `key` on `before`:
    /// escape asks to go back to the menu, no other key does anything.
    pub open spec fn answers(before: Self, key: KeyEvent, after: Self, r: Option<PageResults>)
        -> bool {
        &&& after == before
        &&& r == (if key.code is Esc {
            Some(PageResults::BackToMenu)
        } else {
            None
        })
    }

    /// Handles a key; see [`GameLobbyPage::answers`].
    pub fn key_event(&mut self, key: &KeyEvent) -> (r: Option<PageResults>)
        ensures
            Self::answers(*old(self), *key, *final(self), r),
    {
        match key.code {
            KeyCode::Esc => Some(PageResults::BackToMenu),
            _ => None,
        }
    }

    /// Whether there is something new to draw.
    pub fn needs_update(&self) -> (r: bool)
        ensures
            r == self.needs_update,
    {
        self.needs_update
    }

    /// The line that the page shows.
    pub fn caption(&self) -> (r: String)
        ensures
            r@ == "Room ID: "@ + self.room_id@,
    {
        let mut r = "Room ID: ".to_owned();
        vstd::string::StringExecFns::append(&mut r, self.room_id.as_str());
        r
    }

    /// Takes note that the page was drawn.
    pub fn drawn(&mut self)
        ensures
            *final(self) == (GameLobbyPage { needs_update: false, ..*old(self) }),
    {
        self.needs_update = false;
    }
}

} // verus!
