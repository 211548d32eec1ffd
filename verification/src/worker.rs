//! The search as one of two threads: it searches depth after depth, shows
//! the move that it holds after each, and looks between two depths whether
//! the other thread has told it to stop.

use crate::play::{Game, MoveEval};
use crate::minimax::is_fit_to_play;
use crate::session::{
    holds_completed_depth, is_fresh, lemma_completed_depth_is_fit_to_play, request_stop,
    search_step, steps_left,
};
use std::sync::atomic::{AtomicBool, Ordering};
use std::sync::Mutex;
use vstd::prelude::*;

verus! {

/// `std::sync::Mutex`, carried as it is.
#[verifier::external_type_specification]
#[verifier::external_body]
#[verifier::reject_recursive_types(T)]
pub struct ExMutex<T: ?Sized>(Mutex<T>);

/// `std::sync::Mutex::lock`, and an assignment through the guard: puts
/// `outcome` into the slot in place of what it held. A slot that another
/// thread has poisoned is written all the same. Nothing is said of the
/// slot afterwards: other threads may write to it and take from it.
#[verifier::external_body]
fn publish(slot: &Mutex<Option<MoveEval>>, outcome: Option<MoveEval>) {
    match slot.lock() {
        Ok(mut held) => *held = outcome,
        Err(poisoned) => *poisoned.into_inner() = outcome,
    }
}

/// Runs the search of `game` to its end, as `get_move` does, for another
/// thread to watch and to stop.
///
/// After every step the move that the search holds is put into
/// `current_best_move`; once the search has ended `move_set` is set, after
/// the last move has been put there. Between two steps, and only there,
/// `stop_search` is read: once it is found set the search goes no deeper.
/// The first depth is completed whatever `stop_search` holds.
///
/// Whenever the search is stopped, a search that had not searched anything
/// ends holding the move of a depth that it has completed: a legal move
/// wherever there is one, and a capture where captures are forced and
/// there is one.
pub fn run_search(
    game: Game,
    stop_search: &AtomicBool,
    move_set: &AtomicBool,
    current_best_move: &Mutex<Option<MoveEval>>,
) -> (r: Game)
    ensures
        !game.is_searching || game.move_set ==> r == game,
        game.is_searching ==> r.is_searching && r.move_set,
        is_fresh(game) ==> holds_completed_depth(game, r),
        is_fresh(game) ==> is_fit_to_play(game.board, game.forced_capture, r.current_best_move),
{
    let mut current = game;
    while current.is_searching && !current.move_set
        invariant
            !game.is_searching || game.move_set ==> current == game,
            game.is_searching ==> current.is_searching,
            is_fresh(game) ==> current == game || holds_completed_depth(game, current),
        decreases steps_left(current),
    {
        if stop_search.load(Ordering::SeqCst) {
            current = request_stop(current);
        }
        current = search_step(current);
        publish(current_best_move, current.current_best_move);
        if current.move_set {
            move_set.store(true, Ordering::SeqCst);
        }
    }
    proof {
        if is_fresh(game) {
            lemma_completed_depth_is_fit_to_play(game, current);
        }
    }
    current
}

} // verus!
