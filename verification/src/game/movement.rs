//! The paddle debouncer.
//!
//! A terminal that reports neither key release nor key repeat as such sends
//! one key press when a key goes down and, after a pause, a stream of further
//! presses while it is held. The debouncer turns these into movement that
//! lasts: a direction holds until no press has confirmed it for too long.

use crate::websocket::events::request::PaddleMoveDirection;
use std::time::{Duration, Instant};
use vstd::prelude::*;

verus! {

/// A point on the monotonic clock. Nothing of it is visible to the proofs.
#[verifier::external_type_specification]
#[verifier::external_body]
pub struct ExInstant(Instant);

/// How long a direction holds without a further press when its first press
/// was the latest one: a held key takes that long to start repeating.
pub const HOLD_MILLIS: u128 = 500;

/// How long a direction holds without a further press once presses repeat.
pub const GRACE_MILLIS: u128 = 30;

/// The present moment.
///
/// Trusted: the body is `Instant::now`. Nothing is promised of the result.
#[verifier::external_body]
pub(crate) fn now() -> Instant {
    Instant::now()
}

/// The time that has passed since a moment.
///
/// Trusted: the body is `Instant::elapsed`. Nothing is promised of the
/// result.
#[verifier::external_body]
fn elapsed(since: &Instant) -> Duration {
    since.elapsed()
}

/// A length of time in whole milliseconds.
///
/// Trusted: the body is `Duration::as_millis`. Nothing is promised of the
/// result.
#[verifier::external_body]
fn millis(length: &Duration) -> u128 {
    length.as_millis()
}

/// The mathematical value of a [`Movement`]: the direction, whether the
/// latest press was the first one of this direction, and the moment of the
/// latest press.
pub struct MovementState {
    pub direction: PaddleMoveDirection,
    pub first_keystroke: bool,
    pub since: Option<Instant>,
}

impl MovementState {
    /// A moment is on record exactly while there is a direction.
    pub open spec fn wf(self) -> bool {
        (self.since is Some) == (self.direction != PaddleMoveDirection::Idle)
    }

    /// The state at rest.
    pub open spec fn rest() -> MovementState {
        MovementState {
            direction: PaddleMoveDirection::Idle,
            first_keystroke: false,
            since: None,
        }
    }

    /// The state after a press for `direction` at the moment `at`: the press
    /// is a first one exactly where the direction is new, and its moment is
    /// the one on record, also where the direction repeats. With no
    /// direction there is no moment.
    pub open spec fn updated(self, direction: PaddleMoveDirection, at: Instant) -> MovementState {
        MovementState {
            direction,
            first_keystroke: self.direction != direction,
            since: if direction == PaddleMoveDirection::Idle {
                None
            } else {
                Some(at)
            },
        }
    }

    /// The state after the direction was given up.
    pub open spec fn halted(self) -> MovementState {
        MovementState {
            direction: PaddleMoveDirection::Idle,
            first_keystroke: self.direction != PaddleMoveDirection::Idle,
            since: None,
        }
    }

    /// The time without a press after which the direction is given up.
    pub open spec fn patience(self) -> u128 {
        if self.first_keystroke {
            HOLD_MILLIS
        } else {
            GRACE_MILLIS
        }
    }

    /// Whether the movement has stopped when `elapsed` milliseconds have
    /// passed since the latest press.
    pub open spec fn stops(self, elapsed: u128) -> bool {
        self.direction != PaddleMoveDirection::Idle && elapsed > self.patience()
    }

    /// The state after it was asked whether the movement has stopped: at
    /// rest where it has, and as it was where it has not.
    pub open spec fn checked(self, elapsed: u128) -> MovementState {
        if self.stops(elapsed) {
            self.halted()
        } else {
            self
        }
    }
}

/// One paddle's debouncer.
#[derive(Debug)]
pub struct Movement {
    direction: PaddleMoveDirection,
    first_keystroke: bool,
    since: Option<Instant>,
}

impl View for Movement {
    type V = MovementState;

    closed spec fn view(&self) -> MovementState {
        MovementState {
            direction: self.direction,
            first_keystroke: self.first_keystroke,
            since: self.since,
        }
    }
}

impl Clone for Movement {
    fn clone(&self) -> (r: Self)
        ensures
            r@ == self@,
    {
        proof {
            use_type_invariant(self);
        }
        Movement {
            direction: self.direction,
            first_keystroke: self.first_keystroke,
            since: self.since,
        }
    }
}

impl Movement {
    #[verifier::type_invariant]
    spec fn well_formed(self) -> bool {
        (self.since is Some) == (self.direction != PaddleMoveDirection::Idle)
    }

    /// A debouncer at rest.
    pub fn new() -> (r: Self)
        ensures
            r@ == MovementState::rest(),
    {
        Self { direction: PaddleMoveDirection::Idle, first_keystroke: false, since: None }
    }

    /// Takes a press for `direction` that happened at the moment `at`.
    pub fn update_at(&mut self, direction: &PaddleMoveDirection, at: Instant)
        ensures
            final(self)@ == old(self)@.updated(*direction, at),
    {
        let first_keystroke = self.direction != *direction;
        let since = match direction {
            PaddleMoveDirection::Idle => None,
            _ => Some(at),
        };
        *self = Movement { direction: *direction, first_keystroke, since };
    }

    /// Takes a press for `direction` that happens now. The clock decides
    /// which moment goes on record.
    pub fn update(&mut self, direction: &PaddleMoveDirection)
        ensures
            exists|at: Instant| final(self)@ == #[trigger] old(self)@.updated(*direction, at),
    {
        let at = now();
        self.update_at(direction, at);
    }

    /// Whether the latest press was the first one of its direction.
    pub fn first_keystroke(&self) -> (first: bool)
        ensures
            first == self@.first_keystroke,
    {
        self.first_keystroke
    }

    /// The direction that holds. The debouncer's invariant holds with it: a
    /// moment is on record exactly while there is a direction.
    pub fn direction(&self) -> (direction: PaddleMoveDirection)
        ensures
            direction == self@.direction,
            self@.wf(),
    {
        proof {
            use_type_invariant(self);
        }
        self.direction
    }

    /// Says whether the movement has stopped, `elapsed` milliseconds after
    /// the latest press, and puts the debouncer to rest where it has. Where
    /// it has not, nothing changes: the moment on record stays the same.
    pub fn stopped_after(&mut self, elapsed: u128) -> (stopped: bool)
        ensures
            stopped == old(self)@.stops(elapsed),
            final(self)@ == old(self)@.checked(elapsed),
            !stopped ==> final(self)@ == old(self)@,
    {
        if self.direction != PaddleMoveDirection::Idle {
            let patience = if self.first_keystroke {
                HOLD_MILLIS
            } else {
                GRACE_MILLIS
            };
            if elapsed > patience {
                *self = Movement {
                    direction: PaddleMoveDirection::Idle,
                    first_keystroke: true,
                    since: None,
                };
                return true;
            }
        }
        false
    }

    /// Says whether the movement has stopped by now, and puts the debouncer
    /// to rest where it has. The clock decides which `elapsed` holds. A
    /// check that reports no stop leaves the debouncer as it was, with the
    /// moment that it had on record; at rest no check reports a stop.
    pub fn movement_stopped(&mut self) -> (stopped: bool)
        ensures
            exists|elapsed: u128|
                stopped == old(self)@.stops(elapsed) && final(self)@ == #[trigger] old(
                    self
                )@.checked(elapsed),
            !stopped ==> final(self)@ == old(self)@,
            stopped ==> final(self)@ == old(self)@.halted(),
            old(self)@.direction == PaddleMoveDirection::Idle ==> !stopped,
    {
        proof {
            use_type_invariant(&*self);
        }
        match self.since {
            Some(since) => {
                let length = elapsed(&since);
                let passed = millis(&length);
                self.stopped_after(passed)
            },
            None => {
                assert(old(self)@.checked(0) == old(self)@);
                false
            },
        }
    }
}

/// A direction that is held reports a first keystroke on its first press
/// only: a press is a first one exactly where it changes the direction, so
/// every further press for the same direction is none.
pub proof fn lemma_first_keystroke_once(
    state: MovementState,
    direction: PaddleMoveDirection,
    at: Instant,
    later: Instant,
)
    ensures
        state.updated(direction, at).first_keystroke == (state.direction != direction),
        !state.updated(direction, at).updated(direction, later).first_keystroke,
        state.updated(direction, at).wf(),
{
}

/// The moment on record is that of the latest press, also where the press
/// repeats the direction that holds; there is none exactly where there is no
/// direction.
pub proof fn lemma_press_refreshes_moment(
    state: MovementState,
    direction: PaddleMoveDirection,
    at: Instant,
    later: Instant,
)
    requires
        direction != PaddleMoveDirection::Idle,
    ensures
        state.updated(direction, at).since == Some(at),
        state.updated(direction, at).updated(direction, later).since == Some(later),
        state.updated(PaddleMoveDirection::Idle, at).since is None,
{
}

/// The movement stops when the time since the latest press crosses the
/// threshold, and not before: 500 ms after a first press, 30 ms after a
/// repeated one. Until then the check leaves the state as it is: direction,
/// first-keystroke flag and moment.
pub proof fn lemma_stops_at_threshold(state: MovementState, elapsed: u128)
    requires
        state.direction != PaddleMoveDirection::Idle,
    ensures
        state.first_keystroke ==> (state.stops(elapsed) <==> elapsed > 500),
        !state.first_keystroke ==> (state.stops(elapsed) <==> elapsed > 30),
        !state.stops(elapsed) ==> state.checked(elapsed) == state,
{
}

/// The movement stops once: the check that finds it stopped puts the
/// debouncer to rest, and at rest no check finds anything to stop, however
/// much time passes.
pub proof fn lemma_stops_once(state: MovementState, elapsed: u128, later: u128)
    requires
        state.stops(elapsed),
    ensures
        state.checked(elapsed).direction == PaddleMoveDirection::Idle,
        state.checked(elapsed).wf(),
        !state.checked(elapsed).stops(later),
        state.checked(elapsed).checked(later) == state.checked(elapsed),
{
}

} // verus!
