//! The page on which the user picks how to play.

use crate::ui::input::{KeyCode, KeyEvent};
use crate::ui::pages::PageResults;
use vstd::prelude::*;

verus! {

/// The ways to play, in the order in which the page lists them.
#[derive(Debug, Clone, Copy, PartialEq, Eq, Structural)]
pub enum GameModes {
    SinglePlayer,
    CreateRoom,
    JoinRoom,
}

impl GameModes {
    /// The entry that the tab key leads to: the next one, and the first one
    /// after the last.
    pub open spec fn toggled(self) -> GameModes {
        match self {
            GameModes::SinglePlayer => GameModes::CreateRoom,
            GameModes::CreateRoom => GameModes::JoinRoom,
            GameModes::JoinRoom => GameModes::SinglePlayer,
        }
    }

    /// The entry above; the first entry stays.
    pub open spec fn previous(self) -> GameModes {
        match self {
            GameModes::JoinRoom => GameModes::CreateRoom,
            _ => GameModes::SinglePlayer,
        }
    }

    /// The entry below; the last entry stays.
    pub open spec fn following(self) -> GameModes {
        match self {
            GameModes::SinglePlayer => GameModes::CreateRoom,
            _ => GameModes::JoinRoom,
        }
    }

    /// The entry that the tab key leads to.
    pub fn toggle(&self) -> (r: Self)
        ensures
            r == self.toggled(),
    {
        match self {
            GameModes::SinglePlayer => GameModes::CreateRoom,
            GameModes::CreateRoom => GameModes::JoinRoom,
            GameModes::JoinRoom => GameModes::SinglePlayer,
        }
    }

    /// The entry above.
    pub fn prev(&self) -> (r: Self)
        ensures
            r == self.previous(),
    {
        match self {
            GameModes::JoinRoom => GameModes::CreateRoom,
            _ => GameModes::SinglePlayer,
        }
    }

    /// The entry below.
    pub fn next(&self) -> (r: Self)
        ensures
            r == self.following(),
    {
        match self {
            GameModes::SinglePlayer => GameModes::CreateRoom,
            _ => GameModes::JoinRoom,
        }
    }
}

/// Three steps with the tab key lead back to where they began, and the arrow
/// keys stop at the two ends of the list.
pub proof fn lemma_selection_moves(mode: GameModes)
    ensures
        mode.toggled().toggled().toggled() == mode,
        mode.previous().previous().previous() == GameModes::SinglePlayer,
        mode.following().following().following() == GameModes::JoinRoom,
        mode != GameModes::JoinRoom ==> mode.following().previous() == mode,
        mode != GameModes::SinglePlayer ==> mode.previous().following() == mode,
{
}

/// The mode page: the entry under the cursor, whether there is something new
/// to draw, and the error to show.
#[derive(Debug, Clone)]
pub struct GameModePage {
    pub selection: GameModes,
    pub needs_update: bool,
    pub error_message: Option<String>,
}

impl GameModePage {
    /// The entry under the cursor once a key is handled.
    pub open spec fn selection_after(selection: GameModes, code: KeyCode) -> GameModes {
        match code {
            KeyCode::Tab => selection.toggled(),
            KeyCode::Up => selection.previous(),
            KeyCode::Down => selection.following(),
            _ => selection,
        }
    }

    /// Whether a key moves the cursor.
    pub open spec fn moves(code: KeyCode) -> bool {
        code is Tab || code is Up || code is Down
    }

    /// The page as it first shows: the cursor on the first entry, no error,
    /// everything to draw.
    pub open spec fn initial() -> Self {
        GameModePage { selection: GameModes::SinglePlayer, needs_update: true, error_message: None }
    }

    /// The page as it first shows.
    pub fn new() -> (r: Self)
        ensures
            r == Self::initial(),
    {
        Self { selection: GameModes::SinglePlayer, needs_update: true, error_message: None }
    }

    /// Whether `after` and `r` are the page's answer to `key` on `before`.
    ///
    /// Escape asks to leave the program; enter asks for the entry under the
    /// cursor; tab and the arrows move the cursor, which is something new to
    /// draw. No other key does anything.
    pub open spec fn answers(before: Self, key: KeyEvent, after: Self, r: Option<PageResults>)
        -> bool {
        &&& after.error_message == before.error_message
        &&& after.selection == Self::selection_after(before.selection, key.code)
        &&& after.needs_update == (before.needs_update || Self::moves(key.code))
        &&& match key.code {
            KeyCode::Esc => r == Some(PageResults::Exit),
            KeyCode::Enter => r == Some(PageResults::GameModeChosen(before.selection)),
            _ => r is None,
        }
    }

    /// Handles a key; see [`GameModePage::answers`].
    pub fn key_event(&mut self, key: &KeyEvent) -> (r: Option<PageResults>)
        ensures
            Self::answers(*old(self), *key, *final(self), r),
    {
        match key.code {
            KeyCode::Esc => {
                return Some(PageResults::Exit);
            },
            KeyCode::Tab => self.focus_widget(self.selection.toggle()),
            KeyCode::Up => self.focus_widget(self.selection.prev()),
            KeyCode::Down => self.focus_widget(self.selection.next()),
            KeyCode::Enter => {
                return Some(PageResults::GameModeChosen(self.selection));
            },
            _ => {},
        }
        None
    }

    /// Whether there is something new to draw.
    pub fn needs_update(&self) -> (r: bool)
        ensures
            r == self.needs_update,
    {
        self.needs_update
    }

    /// Takes note that the page was drawn.
    pub fn drawn(&mut self)
        ensures
            *final(self) == (GameModePage { needs_update: false, ..*old(self) }),
    {
        self.needs_update = false;
    }

    /// Puts the cursor on an entry.
    pub fn focus_widget(&mut self, mode: GameModes)
        ensures
            *final(self) == (GameModePage { selection: mode, needs_update: true, ..*old(self) }),
    {
        self.needs_update = true;
        self.selection = mode;
    }
}

} // verus!
