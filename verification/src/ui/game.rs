//! The page of a running game.

use crate::game::movement::{Movement, MovementState};
use crate::types::{Player, Position};
use crate::ui::input::{KeyCode, KeyEvent, KeyKind};
use crate::ui::pages::PageResults;
use crate::websocket::events::request::PaddleMoveDirection;
use crate::websocket::events::websocketevents::{
    GameOverEvent, GameStartEvent, GameStartEventPlayer, GameStateEvent, NumberString,
};
use std::time::Instant;
use vstd::prelude::*;

verus! {

/// Which of the two players sits at this client.
#[derive(Debug, Clone, Copy, PartialEq, Eq, Structural)]
pub enum CurrentPlayer {
    PlayerA,
    PlayerB,
}

impl From<bool> for CurrentPlayer {
    /// The room's owner is player A, its guest player B.
    fn from(is_owner: bool) -> (r: Self) {
        if is_owner {
            CurrentPlayer::PlayerA
        } else {
            CurrentPlayer::PlayerB
        }
    }
}

impl vstd::std_specs::convert::FromSpecImpl<bool> for CurrentPlayer {
    open spec fn obeys_from_spec() -> bool {
        true
    }

    open spec fn from_spec(is_owner: bool) -> Self {
        if is_owner {
            CurrentPlayer::PlayerA
        } else {
            CurrentPlayer::PlayerB
        }
    }
}

/// A player and their final score.
#[derive(Debug, Clone)]
pub struct GameResultPlayer {
    pub player: GameStartEventPlayer,
    pub score: usize,
}

/// How a game ended, as seen from this client.
#[derive(Debug, Clone)]
pub struct GameResult {
    pub won: bool,
    pub player_a: GameResultPlayer,
    pub player_b: GameResultPlayer,
}

/// The game page: the two players, the ball, the two paddle debouncers and
/// what the server said last.
#[derive(Debug, Clone)]
pub struct Game {
    pub player_a: Player,
    pub player_b: Player,
    pub current_player: CurrentPlayer,
    pub ball: Position,
    pub paused: bool,
    pub movement_a: Movement,
    pub movement_b: Movement,
    pub needs_update: bool,
}

/// Whether this client has won with the given final scores: the local
/// player's score is the higher one.
pub open spec fn has_won(current_player: CurrentPlayer, owner: usize, guest: usize) -> bool {
    match current_player {
        CurrentPlayer::PlayerA => owner > guest,
        CurrentPlayer::PlayerB => guest > owner,
    }
}

/// The paddle and the direction that a key stands for: `w` and `s` move the
/// first paddle, the arrows the second.
pub open spec fn paddle_key(code: KeyCode) -> Option<(bool, PaddleMoveDirection)> {
    match code {
        KeyCode::Char(c) => if c == 'w' || c == 'W' {
            Some((true, PaddleMoveDirection::Up))
        } else if c == 's' || c == 'S' {
            Some((true, PaddleMoveDirection::Down))
        } else {
            None
        },
        KeyCode::Up => Some((false, PaddleMoveDirection::Up)),
        KeyCode::Down => Some((false, PaddleMoveDirection::Down)),
        _ => None,
    }
}

/// Whether a key is the pause key: `p` or the space bar.
pub open spec fn pause_key(code: KeyCode) -> bool {
    code == KeyCode::Char('p') || code == KeyCode::Char('P') || code == KeyCode::Char(' ')
}

impl Game {
    /// Whether `game` is the page as a game starts with the given event: the
    /// owner is player A and the guest player B, nobody has a point, paddles
    /// and ball stand where the event puts them, nothing moves, the game
    /// runs, and everything is to be drawn.
    pub open spec fn started(start_event: GameStartEvent, game: Game) -> bool {
        &&& game.player_a.player == start_event.owner
        &&& game.player_a.pos_y == start_event.paddle1_y
        &&& game.player_a.score == 0
        &&& game.player_b.player == start_event.guest
        &&& game.player_b.pos_y == start_event.paddle2_y
        &&& game.player_b.score == 0
        &&& game.current_player == (if start_event.is_owner {
            CurrentPlayer::PlayerA
        } else {
            CurrentPlayer::PlayerB
        })
        &&& game.ball.pos_x == start_event.ball_x
        &&& game.ball.pos_y == start_event.ball_y
        &&& !game.paused
        &&& game.movement_a@ == MovementState::rest()
        &&& game.movement_b@ == MovementState::rest()
        &&& game.needs_update
    }

    /// The page as a game starts; see [`Game::started`].
    pub fn new(start_event: GameStartEvent) -> (r: Self)
        ensures
            Self::started(start_event, r),
    {
        Self {
            player_a: Player::new(start_event.owner, start_event.paddle1_y),
            player_b: Player::new(start_event.guest, start_event.paddle2_y),
            current_player: CurrentPlayer::from(start_event.is_owner),
            ball: Position { pos_y: start_event.ball_y, pos_x: start_event.ball_x },
            paused: false,
            movement_a: Movement::new(),
            movement_b: Movement::new(),
            needs_update: true,
        }
    }

    /// Whether `after` is `before` with what the server says of the running
    /// game taken over: both paddles, both scores and the ball.
    pub open spec fn updated(before: Game, state_event: GameStateEvent, after: Game) -> bool {
        &&& after.player_a.pos_y@ == state_event.paddle1_y@
        &&& after.player_b.pos_y@ == state_event.paddle2_y@
        &&& after.player_a.score == state_event.owner_score
        &&& after.player_b.score == state_event.guest_score
        &&& after.ball.pos_x@ == state_event.ball_x@
        &&& after.ball.pos_y@ == state_event.ball_y@
        &&& after.needs_update
        &&& after.player_a.player == before.player_a.player
        &&& after.player_b.player == before.player_b.player
        &&& after.current_player == before.current_player
        &&& after.paused == before.paused
        &&& after.movement_a == before.movement_a
        &&& after.movement_b == before.movement_b
    }

    /// Takes over what the server says of the running game; see
    /// [`Game::updated`].
    pub fn update(&mut self, state_event: &GameStateEvent)
        ensures
            Self::updated(*old(self), *state_event, *final(self)),
    {
        self.player_a.pos_y = state_event.paddle1_y.clone();
        self.player_b.pos_y = state_event.paddle2_y.clone();
        self.player_a.score = state_event.owner_score;
        self.player_b.score = state_event.guest_score;
        self.ball.pos_y = state_event.ball_y.clone();
        self.ball.pos_x = state_event.ball_x.clone();
        self.needs_update = true;
    }

    /// Takes over whether the server holds the game.
    pub fn set_paused(&mut self, paused: bool)
        ensures
            *final(self) == (Game { paused, needs_update: true, ..*old(self) }),
    {
        self.paused = paused;
        self.needs_update = true;
    }

    /// The directions of the two paddles, as they are sent to the server.
    pub open spec fn directions(&self) -> (PaddleMoveDirection, PaddleMoveDirection) {
        (self.movement_a@.direction, self.movement_b@.direction)
    }

    /// What a key that happened at the moment `at` asks for, and what it
    /// leaves behind.
    ///
    /// A press of escape asks to go back to the menu. A press of the pause
    /// key asks the server to pause a running game and to go on with a paused
    /// one. A press of a paddle key is taken by that paddle's debouncer; the
    /// new directions are to be sent where the press is the first one of its
    /// direction. The release of a paddle key puts its debouncer to rest,
    /// where it still holds that key's direction, and the new directions are
    /// to be sent. Nothing else does anything.
    pub fn key_event_at(&mut self, key: &KeyEvent, at: Instant) -> (r: Option<PageResults>)
        ensures
            Self::answers(*old(self), *key, at, *final(self), r),
    {
        let pressed = match key.kind {
            KeyKind::Release => false,
            _ => true,
        };
        let paddle: Option<(bool, PaddleMoveDirection)> = match key.code {
            KeyCode::Char(c) => {
                if c == 'w' || c == 'W' {
                    Some((true, PaddleMoveDirection::Up))
                } else if c == 's' || c == 'S' {
                    Some((true, PaddleMoveDirection::Down))
                } else {
                    None
                }
            },
            KeyCode::Up => Some((false, PaddleMoveDirection::Up)),
            KeyCode::Down => Some((false, PaddleMoveDirection::Down)),
            _ => None,
        };
        match paddle {
            Some((first, direction)) => {
                let held = if first {
                    self.movement_a.direction()
                } else {
                    self.movement_b.direction()
                };
                let target = if pressed {
                    direction
                } else if held == direction {
                    PaddleMoveDirection::Idle
                } else {
                    return None;
                };
                if first {
                    self.movement_a.update_at(&target, at);
                } else {
                    self.movement_b.update_at(&target, at);
                }
                if held != target {
                    Some(
                        PageResults::UpdatePaddleMovement(
                            (self.movement_a.direction(), self.movement_b.direction()),
                        ),
                    )
                } else {
                    None
                }
            },
            None => {
                if !pressed {
                    None
                } else if key.code == KeyCode::Esc {
                    Some(PageResults::BackToMenu)
                } else if key.code == KeyCode::Char('p') || key.code == KeyCode::Char('P')
                    || key.code == KeyCode::Char(' ') {
                    Some(PageResults::GamePaused(!self.paused))
                } else {
                    None
                }
            },
        }
    }

    /// Whether `after` and `r` are the page's answer to `key`, which
    /// happened at the moment `at`, on `before`: the key changes nothing but
    /// the two debouncers.
    pub open spec fn answers(
        before: Self,
        key: KeyEvent,
        at: Instant,
        after: Self,
        r: Option<PageResults>,
    ) -> bool {
        &&& after.player_a == before.player_a
        &&& after.player_b == before.player_b
        &&& after.current_player == before.current_player
        &&& after.ball == before.ball
        &&& after.paused == before.paused
        &&& after.needs_update == before.needs_update
        &&& after.movement_a@ == Self::movement_after(before.movement_a@, key, at, true)
        &&& after.movement_b@ == Self::movement_after(before.movement_b@, key, at, false)
        &&& r == Self::asked(before, key)
    }

    /// The direction that a key gives to a paddle's debouncer, where it
    /// gives it one; `first` says which paddle. A press or a repeat of a
    /// paddle's key gives that key's direction; its release gives none,
    /// where the debouncer still holds the key's direction.
    pub open spec fn target(state: MovementState, key: KeyEvent, first: bool) -> Option<
        PaddleMoveDirection,
    > {
        match paddle_key(key.code) {
            Some((paddle, direction)) => if paddle != first {
                None
            } else if !(key.kind is Release) {
                Some(direction)
            } else if state.direction == direction {
                Some(PaddleMoveDirection::Idle)
            } else {
                None
            },
            None => None,
        }
    }

    /// What a key that happened at the moment `at` makes of a paddle's
    /// debouncer; `first` says which paddle.
    pub open spec fn movement_after(state: MovementState, key: KeyEvent, at: Instant, first: bool)
        -> MovementState {
        match Self::target(state, key, first) {
            Some(direction) => state.updated(direction, at),
            None => state,
        }
    }

    /// The direction of a paddle after a key.
    pub open spec fn direction_after(state: MovementState, key: KeyEvent, first: bool)
        -> PaddleMoveDirection {
        match Self::target(state, key, first) {
            Some(direction) => direction,
            None => state.direction,
        }
    }

    /// What a key asks of the session.
    pub open spec fn asked(page: Game, key: KeyEvent) -> Option<PageResults> {
        let after_a = Self::direction_after(page.movement_a@, key, true);
        let after_b = Self::direction_after(page.movement_b@, key, false);
        match paddle_key(key.code) {
            Some(_) => if after_a != page.movement_a@.direction || after_b
                != page.movement_b@.direction {
                Some(PageResults::UpdatePaddleMovement((after_a, after_b)))
            } else {
                None
            },
            None => if key.kind is Release {
                None
            } else if key.code is Esc {
                Some(PageResults::BackToMenu)
            } else if pause_key(key.code) {
                Some(PageResults::GamePaused(!page.paused))
            } else {
                None
            },
        }
    }

    /// What a key that happens now asks for; see [`Game::key_event_at`].
    /// The clock decides which moment `at` holds.
    pub fn key_event(&mut self, key: &KeyEvent) -> (r: Option<PageResults>)
        ensures
            exists|at: Instant| #[trigger] Self::answers(*old(self), *key, at, *final(self), r),
    {
        let at = crate::game::movement::now();
        self.key_event_at(key, at)
    }

    /// The directions to send when the two debouncers are asked, so long
    /// after their latest presses, whether their movements have stopped:
    /// both directions as they then are, where at least one has stopped.
    pub open spec fn flushed(
        a: MovementState,
        b: MovementState,
        elapsed_a: u128,
        elapsed_b: u128,
    ) -> Option<(PaddleMoveDirection, PaddleMoveDirection)> {
        if a.stops(elapsed_a) || b.stops(elapsed_b) {
            Some((a.checked(elapsed_a).direction, b.checked(elapsed_b).direction))
        } else {
            None
        }
    }

    /// Whether `after` is `before` one tick later, so long after the latest
    /// presses: nothing has changed but the two debouncers, which were asked
    /// whether their movements have stopped.
    pub open spec fn ticked(before: Game, elapsed_a: u128, elapsed_b: u128, after: Game) -> bool {
        &&& after.player_a == before.player_a
        &&& after.player_b == before.player_b
        &&& after.current_player == before.current_player
        &&& after.ball == before.ball
        &&& after.paused == before.paused
        &&& after.needs_update == before.needs_update
        &&& after.movement_a@ == before.movement_a@.checked(elapsed_a)
        &&& after.movement_b@ == before.movement_b@.checked(elapsed_b)
    }

    /// One tick, so long after the latest presses: gives up the movements
    /// that no press has confirmed in time, and says what to send.
    pub fn tick_after(&mut self, elapsed_a: u128, elapsed_b: u128) -> (r: Option<
        (PaddleMoveDirection, PaddleMoveDirection),
    >)
        ensures
            Self::ticked(*old(self), elapsed_a, elapsed_b, *final(self)),
            r == Self::flushed(old(self).movement_a@, old(self).movement_b@, elapsed_a, elapsed_b),
    {
        let stopped_a = self.movement_a.stopped_after(elapsed_a);
        let stopped_b = self.movement_b.stopped_after(elapsed_b);
        if stopped_a || stopped_b {
            Some((self.movement_a.direction(), self.movement_b.direction()))
        } else {
            None
        }
    }

    /// One tick by the clock; see [`Game::tick_after`].
    pub fn tick(&mut self) -> (r: Option<(PaddleMoveDirection, PaddleMoveDirection)>)
        ensures
            exists|elapsed_a: u128, elapsed_b: u128| #[trigger]
                Self::ticked(*old(self), elapsed_a, elapsed_b, *final(self)) && r == Self::flushed(
                    old(self).movement_a@,
                    old(self).movement_b@,
                    elapsed_a,
                    elapsed_b,
                ),
    {
        let ghost before = *self;
        let stopped_a = self.movement_a.movement_stopped();
        let stopped_b = self.movement_b.movement_stopped();
        proof {
            let elapsed_a = choose|elapsed: u128|
                stopped_a == before.movement_a@.stops(elapsed) && self.movement_a@
                    == #[trigger] before.movement_a@.checked(elapsed);
            let elapsed_b = choose|elapsed: u128|
                stopped_b == before.movement_b@.stops(elapsed) && self.movement_b@
                    == #[trigger] before.movement_b@.checked(elapsed);
            assert(Self::ticked(before, elapsed_a, elapsed_b, *self));
        }
        if stopped_a || stopped_b {
            Some((self.movement_a.direction(), self.movement_b.direction()))
        } else {
            None
        }
    }

    /// Whether there is something new to draw.
    pub fn needs_update(&self) -> (r: bool)
        ensures
            r == self.needs_update,
    {
        self.needs_update
    }

    /// Takes note that the page was drawn.
    pub fn drawn(&mut self)
        ensures
            *final(self) == (Game { needs_update: false, ..*old(self) }),
    {
        self.needs_update = false;
    }

    /// Whether `result` is how the game ended, given the final scores: this
    /// client has won where its player's score is the higher one, and the
    /// two players stand with their final scores.
    pub open spec fn concluded(game: Game, game_over: GameOverEvent, result: GameResult) -> bool {
        &&& result.won == has_won(
            game.current_player,
            game_over.final_score.owner,
            game_over.final_score.guest,
        )
        &&& result.player_a.score == game_over.final_score.owner
        &&& result.player_b.score == game_over.final_score.guest
        &&& same_player(result.player_a.player, game.player_a.player)
        &&& same_player(result.player_b.player, game.player_b.player)
    }

    /// The result of the game; see [`Game::concluded`].
    pub fn game_over(&self, game_over: &GameOverEvent) -> (r: GameResult)
        ensures
            Self::concluded(*self, *game_over, r),
    {
        let won = match self.current_player {
            CurrentPlayer::PlayerA => game_over.final_score.owner > game_over.final_score.guest,
            CurrentPlayer::PlayerB => game_over.final_score.guest > game_over.final_score.owner,
        };
        GameResult {
            won,
            player_a: GameResultPlayer {
                player: copy_player(&self.player_a.player),
                score: game_over.final_score.owner,
            },
            player_b: GameResultPlayer {
                player: copy_player(&self.player_b.player),
                score: game_over.final_score.guest,
            },
        }
    }
}

/// Whether two players have the same id and the same nickname.
pub open spec fn same_player(a: GameStartEventPlayer, b: GameStartEventPlayer) -> bool {
    &&& a.nickname@ == b.nickname@
    &&& match (a.id, b.id) {
        (NumberString::Number(m), NumberString::Number(n)) => m == n,
        (NumberString::String(s), NumberString::String(t)) => s@ == t@,
        _ => false,
    }
}

/// A copy of a player.
pub fn copy_player(player: &GameStartEventPlayer) -> (r: GameStartEventPlayer)
    ensures
        same_player(r, *player),
{
    let id = match &player.id {
        NumberString::Number(n) => NumberString::Number(*n),
        NumberString::String(s) => NumberString::String(s.clone()),
    };
    GameStartEventPlayer { id, nickname: player.nickname.clone() }
}

} // verus!
