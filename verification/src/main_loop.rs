//! The loop that runs a game: it waits for a key, but never longer than
//! until the next step is due.
//!
//! Waiting, reading and the clock are the caller's. After each wait the
//! caller says what ended it, and is told what to draw and whether to go on.

use crate::input_reader::ReadResult;
use crate::piece_getter::PieceGetter;
use crate::tetris::{stepped, Request, TetrisGame};
use vstd::prelude::*;

verus! {

/// Milliseconds from the start of the game to its first step.
pub const FIRST_STEP_DELAY: i32 = 1000;

/// Nanoseconds in a millisecond.
pub const NANOS_PER_MILLI: u64 = 1000000;

/// How long the game may still wait for a key.
#[derive(Clone, Copy, PartialEq, Eq, Structural, Debug)]
pub struct MainLoop {
    /// Milliseconds from the last step to the next.
    pub step_time_ms: i32,
    /// Nanoseconds that were spent waiting for keys since the last step.
    pub since_last_step_ns: u64,
}

impl MainLoop {
    /// Milliseconds for which the next wait may last: what is left of the
    /// time between two steps once the time spent waiting for keys is taken
    /// off, and nothing once the step is due or overdue.
    pub open spec fn spec_poll_time_ms(self) -> int {
        let left = self.step_time_ms - self.since_last_step_ns / NANOS_PER_MILLI;
        if left < 0 {
            0
        } else {
            left
        }
    }

    /// The loop before the first wait.
    pub fn new() -> (main_loop: MainLoop)
        ensures
            main_loop == (MainLoop { step_time_ms: FIRST_STEP_DELAY, since_last_step_ns: 0 }),
    {
        MainLoop { step_time_ms: FIRST_STEP_DELAY, since_last_step_ns: 0 }
    }

    /// Milliseconds for which the next wait may last. The wait is never
    /// negative and never longer than the time between two steps, so that
    /// keys, however fast they come, cannot put off the next step.
    pub fn poll_time_ms(&self) -> (millis: i32)
        ensures
            millis == self.spec_poll_time_ms(),
            0 <= millis,
            self.step_time_ms >= 0 ==> millis <= self.step_time_ms,
            self.since_last_step_ns / NANOS_PER_MILLI >= self.step_time_ms ==> millis == 0,
    {
        let waited: u64 = self.since_last_step_ns / NANOS_PER_MILLI;
        if self.step_time_ms < 0 || waited >= self.step_time_ms as u64 {
            0
        } else {
            self.step_time_ms - waited as i32
        }
    }

    /// A key arrived after a wait of `waited_ns` nanoseconds. Any key but an
    /// arrow ends the game: the score is to be stored, and the loop stops.
    /// An arrow is handed to the game, and the wait counts against the time
    /// that is left until the next step.
    ///
    /// The result says whether the loop goes on, and what the caller is to
    /// carry out.
    pub fn on_input<G: PieceGetter>(
        &mut self,
        game: &mut TetrisGame<G>,
        input: ReadResult,
        waited_ns: u64,
    ) -> (turn: (bool, Vec<Request>))
        requires
            !(input is Other) ==> old(self).since_last_step_ns + waited_ns <= u64::MAX,
        ensures
            turn.0 == !(input is Other),
            final(game)@.well_formed(),
            input is Other ==> {
                &&& *final(self) == *old(self)
                &&& final(game)@ == old(game)@
                &&& turn.1@ == seq![Request::StoreScore(old(game)@.tally.snapshot())]
            },
            !(input is Other) ==> {
                &&& *final(self) == (MainLoop {
                    since_last_step_ns: (old(self).since_last_step_ns + waited_ns) as u64,
                    ..*old(self)
                })
                &&& final(game)@ == old(game)@.after_input(input)
                &&& turn.1@ == old(game)@.input_requests(input)
            },
    {
        match input {
            ReadResult::Other => (false, game.handle_quit()),
            _ => {
                self.since_last_step_ns = self.since_last_step_ns + waited_ns;
                (true, game.handle_input(input))
            },
        }
    }

    /// The wait ended with no key: the game takes its step. The loop goes
    /// on with the time that the step asks for, or stops if the step was the
    /// game's last.
    pub fn on_timeout<G: PieceGetter>(&mut self, game: &mut TetrisGame<G>) -> (turn: (
        bool,
        Vec<Request>,
    ))
        requires
            old(game)@.can_step(),
        ensures
            final(game)@.well_formed(),
            stepped(
                old(game)@,
                final(game)@,
                if turn.0 {
                    Some(final(self).step_time_ms)
                } else {
                    None
                },
                turn.1@,
            ),
            turn.0 ==> final(self).since_last_step_ns == 0,
            !turn.0 ==> *final(self) == *old(self),
    {
        let (wait, requests) = game.handle_step();
        match wait {
            None => (false, requests),
            Some(next_step_time_ms) => {
                self.step_time_ms = next_step_time_ms;
                self.since_last_step_ns = 0;
                (true, requests)
            },
        }
    }
}

} // verus!
