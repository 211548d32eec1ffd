//! The search of a game, one depth at a time.
//!
//! A search goes through the depths from 1 up to `PLY_CAP`. After each depth
//! it holds the move of that depth; between two depths, and only there, it
//! looks whether it has been told to stop. The first depth is always
//! completed, so a search that has ended holds a move wherever there is a
//! legal one.

use crate::engine::best_move;
use crate::minimax::{
    best_outcome, is_fit_to_play, lemma_best_outcome_is_fit_to_play, lemma_candidates_are_legal,
};
use crate::position::moves_of;
use crate::play::{Game, Phase};
use vstd::prelude::*;

verus! {

/// The deepest search that is made.
pub const PLY_CAP: u32 = 4;

/// Whether the search of `game` goes no deeper: its first depth is done, and
/// it has been told to stop or has reached the cap.
pub open spec fn search_is_over(game: Game) -> bool {
    game.depth_reached >= 1 && (game.stop_search || game.depth_reached >= PLY_CAP)
}

/// The game after one step of its search.
///
/// A game that is not searching, or whose search has ended, stays as it is.
/// A search that goes no deeper ends: its move can be taken. Else the next
/// depth is searched in full and its move replaces the one held.
pub open spec fn after_step(game: Game) -> Game {
    if !game.is_searching || game.move_set {
        game
    } else if search_is_over(game) {
        Game { move_set: true, ..game }
    } else {
        Game {
            current_best_move: best_outcome(
                game.board,
                (game.depth_reached + 1) as nat,
                game.previous_boards@,
                game.forced_capture,
            ),
            depth_reached: (game.depth_reached + 1) as u32,
            ..game
        }
    }
}

/// How many steps the search of `game` has left at most.
pub open spec fn steps_left(game: Game) -> nat {
    if !game.is_searching || game.move_set {
        0
    } else if game.depth_reached >= PLY_CAP {
        1
    } else {
        (PLY_CAP - game.depth_reached + 1) as nat
    }
}

/// The game once its search has ended.
pub open spec fn after_search(game: Game) -> Game
    decreases steps_left(game),
{
    if !game.is_searching || game.move_set {
        game
    } else {
        after_search(after_step(game))
    }
}

/// The game with its search told to stop.
pub fn request_stop(game: Game) -> (r: Game)
    ensures
        r == (Game { stop_search: true, ..game }),
        game.phase() != Phase::Idle ==> r.phase() == Phase::Stopping,
        game.phase() == Phase::Idle ==> r.phase() == Phase::Idle,
{
    Game { stop_search: true, ..game }
}

/// Whether `game` is a search that has not searched anything yet.
pub open spec fn is_fresh(game: Game) -> bool {
    game.is_searching && !game.move_set && game.depth_reached == 0
}

/// Whether `game` is the search `start` after it has completed a depth: it
/// holds the move of the depth that it has reached, a depth from 1 to the
/// cap, and plays the same game.
pub open spec fn holds_completed_depth(start: Game, game: Game) -> bool {
    &&& game.is_searching
    &&& 1 <= game.depth_reached <= PLY_CAP
    &&& game.current_best_move == best_outcome(
        start.board,
        game.depth_reached as nat,
        start.previous_boards@,
        start.forced_capture,
    )
    &&& game.board == start.board
    &&& game.previous_boards@ == start.previous_boards@
    &&& game.forced_capture == start.forced_capture
    &&& game.debug_mode == start.debug_mode
}

/// A search that has completed a depth holds a move that is fit to be
/// played: a legal move wherever there is one, and a capture where captures
/// are forced and there is one.
pub proof fn lemma_completed_depth_is_fit_to_play(start: Game, game: Game)
    requires
        holds_completed_depth(start, game),
    ensures
        is_fit_to_play(start.board, start.forced_capture, game.current_best_move),
{
    lemma_best_outcome_is_fit_to_play(
        start.board,
        game.depth_reached as nat,
        start.previous_boards@,
        start.forced_capture,
    );
}

/// One step of the search of `game`.
pub fn search_step(game: Game) -> (r: Game)
    ensures
        r == after_step(game),
        game.is_searching && !game.move_set && !search_is_over(game) ==> is_fit_to_play(
            game.board,
            game.forced_capture,
            r.current_best_move,
        ),
{
    if !game.is_searching || game.move_set {
        return game;
    }
    if game.depth_reached >= 1 && (game.stop_search || game.depth_reached >= PLY_CAP) {
        return Game { move_set: true, ..game };
    }
    proof {
        lemma_best_outcome_is_fit_to_play(
            game.board,
            (game.depth_reached + 1) as nat,
            game.previous_boards@,
            game.forced_capture,
        );
    }
    let depth = game.depth_reached + 1;
    let outcome = best_move(&game.board, depth, &game.previous_boards, game.forced_capture);
    Game { current_best_move: outcome, depth_reached: depth, ..game }
}

/// Runs the search of `game` to its end: depth after depth, until it goes
/// no deeper.
pub fn get_move(game: Game) -> (r: Game)
    ensures
        r == after_search(game),
        is_fresh(game) ==> r.move_set && holds_completed_depth(game, r) && r.depth_reached == if game.stop_search {
            1
        } else {
            PLY_CAP
        },
        is_fresh(game) ==> is_fit_to_play(game.board, game.forced_capture, r.current_best_move),
{
    proof {
        if is_fresh(game) {
            lemma_best_outcome_is_fit_to_play(
                game.board,
                if game.stop_search {
                    1
                } else {
                    PLY_CAP as nat
                },
                game.previous_boards@,
                game.forced_capture,
            );
            if game.stop_search {
                lemma_stopped_search_holds_a_move(game);
            } else {
                lemma_search_runs_to_the_cap(game);
            }
            reveal_with_fuel(after_search, 6);
        }
    }
    let mut current = game;
    while current.is_searching && !current.move_set
        invariant
            after_search(current) == after_search(game),
        decreases steps_left(current),
    {
        current = search_step(current);
    }
    current
}

/// A step that searches holds the move of the depth that it searched, not
/// the move of the depth before.
pub proof fn lemma_step_holds_the_new_depth(game: Game)
    requires
        game.is_searching,
        !game.move_set,
        !search_is_over(game),
    ensures
        after_step(game).depth_reached == game.depth_reached + 1,
        after_step(game).current_best_move == best_outcome(
            game.board,
            (game.depth_reached + 1) as nat,
            game.previous_boards@,
            game.forced_capture,
        ),
        after_step(game).stop_search == game.stop_search,
        !after_step(game).move_set,
{
}

/// A search that is never told to stop runs to the cap and holds the move
/// of that depth.
pub proof fn lemma_search_runs_to_the_cap(game: Game)
    requires
        game.is_searching,
        !game.move_set,
        !game.stop_search,
        game.depth_reached == 0,
    ensures
        after_search(game).move_set,
        after_search(game).depth_reached == PLY_CAP,
        after_search(game).current_best_move == best_outcome(
            game.board,
            PLY_CAP as nat,
            game.previous_boards@,
            game.forced_capture,
        ),
{
    reveal_with_fuel(after_search, 6);
}

/// A search that is told to stop before it has searched anything still
/// completes its first depth, and holds the move of that depth: a move
/// wherever the position has a legal one.
pub proof fn lemma_stopped_search_holds_a_move(game: Game)
    requires
        game.is_searching,
        !game.move_set,
        game.stop_search,
        game.depth_reached == 0,
    ensures
        after_search(game).move_set,
        after_search(game).depth_reached == 1,
        after_search(game).current_best_move == best_outcome(
            game.board,
            1,
            game.previous_boards@,
            game.forced_capture,
        ),
        after_search(game).current_best_move.is_some() <==> moves_of(game.board).len() > 0,
{
    reveal_with_fuel(after_search, 3);
    lemma_candidates_are_legal(game.board, game.forced_capture);
}

} // verus!
