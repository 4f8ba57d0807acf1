//! What is on the field.
//!
//! Coordinates are kept as the server wrote them: the decimal text of a
//! number. Whoever draws them turns them into numbers.

use crate::websocket::events::websocketevents::GameStartEventPlayer;
use vstd::prelude::*;

verus! {

/// A player in a running game: who they are, where their paddle stands, and
/// their score.
#[derive(Debug, Clone)]
pub struct Player {
    pub player: GameStartEventPlayer,
    pub pos_y: String,
    pub score: usize,
}

impl Player {
    /// A player with no point yet.
    pub fn new(player: GameStartEventPlayer, pos_y: String) -> (r: Self)
        ensures
            r.player == player,
            r.pos_y == pos_y,
            r.score == 0,
    {
        Self { player, pos_y, score: 0 }
    }
}

/// A point on the field.
#[derive(Debug, Clone)]
pub struct Position {
    pub pos_y: String,
    pub pos_x: String,
}

} // verus!
