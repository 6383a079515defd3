//! Stepping a board in time: the controller gathers the time that passes and
//! advances its board by one generation whenever enough has come together.

use crate::board::Board;
use vstd::prelude::*;

verus! {

/// Owns a board and the time gathered since its last generation.
///
/// Time is counted in whole units of the caller's choosing; the tick
/// interval and every elapsed time are given in the same unit.
pub struct GameboardController {
    /// The board in its current generation.
    pub gameboard: Board,
    /// The time that has to be exceeded before the board advances.
    pub interval: u64,
    /// The time gathered so far and not yet spent on a generation.
    pub dt: u64,
}

impl GameboardController {
    /// Whether an update that brings `elapsed` more time advances the board:
    /// it does where the time gathered then exceeds the interval.
    pub open spec fn due(&self, elapsed: u64) -> bool {
        self.dt + elapsed > self.interval
    }

    /// A controller for `gameboard` that advances it whenever more than
    /// `interval` has been gathered. It starts with no time gathered.
    pub fn new(gameboard: Board, interval: u64) -> (controller: GameboardController)
        ensures
            controller == (GameboardController { gameboard, interval, dt: 0 }),
    {
        GameboardController { gameboard, interval, dt: 0 }
    }

    /// Takes in the time that has passed since the last update.
    ///
    /// Where the time gathered now exceeds the interval, the board advances
    /// by exactly one generation and the interval is taken off the gathered
    /// time; what is left over counts towards the next generation. Otherwise
    /// the board stays as it is. No update advances the board by more than
    /// one generation, however much time it brings.
    ///
    /// A controller that has gathered no more than its interval, and is
    /// handed no more than its interval at a time, never holds more than its
    /// interval.
    pub fn update(&mut self, elapsed: u64)
        requires
            old(self).dt + elapsed <= u64::MAX,
        ensures
            final(self).interval == old(self).interval,
            old(self).due(elapsed) ==> final(self).gameboard@ == old(self).gameboard@.step()
                && final(self).dt == old(self).dt + elapsed - old(self).interval,
            !old(self).due(elapsed) ==> final(self).gameboard == old(self).gameboard
                && final(self).dt == old(self).dt + elapsed,
            old(self).dt <= old(self).interval && elapsed <= old(self).interval ==> final(self).dt
                <= final(self).interval,
    {
        self.dt = self.dt + elapsed;
        if self.dt > self.interval {
            self.gameboard = self.gameboard.next();
            self.dt = self.dt - self.interval;
        }
    }
}

} // verus!
