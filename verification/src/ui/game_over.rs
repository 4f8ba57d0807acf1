//! The page that shows how a game ended.

use crate::ui::game::GameResult;
use crate::ui::input::{KeyCode, KeyEvent};
use crate::ui::pages::PageResults;
use vstd::prelude::*;

verus! {

/// The page after a game: its result, and whether there is something new to
/// draw.
#[derive(Debug, Clone)]
pub struct GameOverPage {
    pub needs_update: bool,
    pub game_result: GameResult,
}

impl GameOverPage {
    /// The page as it first shows.
    pub fn new(game_result: GameResult) -> (r: Self)
        ensures
            r.game_result == game_result,
            r.needs_update,
    {
        Self { needs_update: true, game_result }
    }

    /// What the page asks for on a key: escape and enter ask to leave the
    /// page, no other key does anything.
    pub open spec fn asked(key: KeyEvent) -> Option<PageResults> {
        if key.code is Esc || key.code is Enter {
            Some(PageResults::GameOver)
        } else {
            None
        }
    }

    /// Handles a key; see [`GameOverPage::asked`].
    pub fn key_event(&self, key: &KeyEvent) -> (r: Option<PageResults>)
        ensures
            r == Self::asked(*key),
    {
        match key.code {
            KeyCode::Esc | KeyCode::Enter => Some(PageResults::GameOver),
            _ => None,
        }
    }

    /// Whether there is something new to draw.
    pub fn needs_update(&self) -> (r: bool)
        ensures
            r == self.needs_update,
    {
        self.needs_update
    }

    /// The page's heading.
    pub fn title(&self) -> (r: &'static str)
        ensures
            r@ == (if self.game_result.won {
                "You won"@
            } else {
                "You lost"@
            }),
    {
        if self.game_result.won {
            "You won"
        } else {
            "You lost"
        }
    }

    /// Takes note that the page was drawn.
    pub fn drawn(&mut self)
        ensures
            *final(self) == (GameOverPage { needs_update: false, ..*old(self) }),
    {
        self.needs_update = false;
    }
}

} // verus!
