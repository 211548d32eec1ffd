//! The state of a game between two commands, and what a search hands back.

use crate::position::{Move, Position};
use crate::tracker::DrawTracker;
use vstd::prelude::*;

verus! {

/// A move and the score of the position that it leads to.
#[derive(Clone, Copy, PartialEq, Eq, Debug, Structural)]
pub struct MoveEval {
    pub evaluation: i32,
    pub best_move: Move,
}

/// What a game is doing between two commands.
#[derive(Clone, Copy, PartialEq, Eq, Debug, Structural)]
pub enum Phase {
    /// No search is under way.
    Idle,
    /// A search is under way and has not been told to stop.
    Searching,
    /// A search is under way and has been told to stop.
    Stopping,
}

/// A game and the search that may be under way in it.
#[derive(Clone, Debug)]
pub struct Game {
    /// Whether to print more when a move is printed.
    pub debug_mode: bool,
    /// Whether a capture must be played where there is one.
    pub forced_capture: bool,
    /// The position on the board.
    pub board: Position,
    /// How often each position of the game so far has occurred, by hash.
    /// Two positions may share a hash; that is taken as good enough.
    pub previous_boards: DrawTracker,
    /// Whether a search is under way.
    pub is_searching: bool,
    /// The move that the search holds to be best so far.
    pub current_best_move: Option<MoveEval>,
    /// Whether the search has been told to stop.
    pub stop_search: bool,
    /// Whether the search has ended and its move can be taken.
    pub move_set: bool,
    /// The depth of the last search that was completed, 0 before the first.
    pub depth_reached: u32,
}

impl Game {
    /// What the game is doing.
    pub open spec fn phase(self) -> Phase {
        if !self.is_searching {
            Phase::Idle
        } else if self.stop_search {
            Phase::Stopping
        } else {
            Phase::Searching
        }
    }

    /// What the game is doing.
    pub fn current_phase(&self) -> (r: Phase)
        ensures
            r == self.phase(),
    {
        if !self.is_searching {
            Phase::Idle
        } else if self.stop_search {
            Phase::Stopping
        } else {
            Phase::Searching
        }
    }
}

} // verus!
