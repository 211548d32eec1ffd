//! What the search returns for a window, step by step, and the proof that
//! pruning does not change the score.

use crate::minimax::{
    best_reply, candidates, counts_after, is_drawn, lemma_minimax_range, mate_score, minimax,
    opening_score, preferred, reply_score,
};
use crate::position::{position_after, side_of, status_of, Color, GameStatus, Move, Position};
use crate::predicted_eval::{evaluation_of, lemma_evaluation_bounds};
use vstd::prelude::*;

verus! {

/// The score that the search returns for `p` with the window from `alpha`
/// to `beta`.
pub open spec fn search_value(
    p: Position,
    depth: nat,
    alpha: int,
    beta: int,
    counts: Map<u64, i32>,
    forced_capture: bool,
) -> int
    decreases depth, 0nat, 0nat,
{
    if is_drawn(p, counts) {
        0
    } else if status_of(p) == GameStatus::Won {
        mate_score(side_of(p))
    } else if depth == 0 {
        evaluation_of(p)
    } else {
        scan_value(
            p,
            candidates(p, forced_capture),
            0,
            (depth - 1) as nat,
            alpha,
            beta,
            opening_score(side_of(p)),
            counts,
            forced_capture,
        )
    }
}

/// The score that the search returns once it has looked at the first `i` of
/// `moves` and holds `best`: it looks at the next move with the window as
/// it stands, keeps the preferred score, and stops as soon as that score
/// reaches the far end of the window; else it narrows the window and goes
/// on.
pub open spec fn scan_value(
    p: Position,
    moves: Seq<Move>,
    i: nat,
    depth: nat,
    alpha: int,
    beta: int,
    best: int,
    counts: Map<u64, i32>,
    forced_capture: bool,
) -> int
    decreases depth, 1nat, moves.len() - i,
{
    if i >= moves.len() {
        best
    } else {
        let found = search_value(
            position_after(p, moves[i as int]),
            depth,
            alpha,
            beta,
            counts_after(p, moves[i as int], counts),
            forced_capture,
        );
        let kept = preferred(side_of(p), found, best);
        match side_of(p) {
            Color::Black => if kept >= beta {
                kept
            } else {
                scan_value(
                    p,
                    moves,
                    i + 1,
                    depth,
                    if alpha >= kept {
                        alpha
                    } else {
                        kept
                    },
                    beta,
                    kept,
                    counts,
                    forced_capture,
                )
            },
            Color::White => if kept <= alpha {
                kept
            } else {
                scan_value(
                    p,
                    moves,
                    i + 1,
                    depth,
                    alpha,
                    if beta <= kept {
                        beta
                    } else {
                        kept
                    },
                    kept,
                    counts,
                    forced_capture,
                )
            },
        }
    }
}

/// What a score `found` with the window from `alpha` to `beta` says of the
/// true score: inside the window it is the true score; at or below `alpha`
/// the true score is no higher; at or above `beta` it is no lower.
pub open spec fn within_window(found: int, truth: int, alpha: int, beta: int) -> bool {
    &&& found <= alpha ==> truth <= found
    &&& found >= beta ==> truth >= found
    &&& alpha < found < beta ==> truth == found
}

/// Pruning does not change the score: with a window that is not empty, what
/// the search returns for `p` stands to the score of the full search as
/// `within_window` says.
pub proof fn lemma_search_within_window(
    p: Position,
    depth: nat,
    alpha: int,
    beta: int,
    counts: Map<u64, i32>,
    forced_capture: bool,
)
    requires
        i32::MIN <= alpha < beta <= i32::MAX,
    ensures
        within_window(
            search_value(p, depth, alpha, beta, counts, forced_capture),
            minimax(p, depth, counts, forced_capture),
            alpha,
            beta,
        ),
    decreases depth, 0nat, 0nat,
{
    if !is_drawn(p, counts) && status_of(p) != GameStatus::Won && depth != 0 {
        lemma_scan_within_window(
            p,
            candidates(p, forced_capture),
            0,
            (depth - 1) as nat,
            alpha,
            beta,
            alpha,
            beta,
            opening_score(side_of(p)),
            counts,
            forced_capture,
        );
    }
}

/// What the scan holds after `i` moves, against the score that the full
/// search has for them: `best` is that score once it has entered the window
/// that the node was given, and bounds it from the near side before.
pub open spec fn scan_state(
    mover: Color,
    alpha0: int,
    beta0: int,
    alpha: int,
    beta: int,
    best: int,
    truth: int,
) -> bool {
    match mover {
        Color::Black => {
            &&& beta == beta0
            &&& best < beta0
            &&& alpha == if alpha0 >= best {
                alpha0
            } else {
                best
            }
            &&& best <= alpha0 ==> truth <= best
            &&& best > alpha0 ==> truth == best
        },
        Color::White => {
            &&& alpha == alpha0
            &&& best > alpha0
            &&& beta == if beta0 <= best {
                beta0
            } else {
                best
            }
            &&& best >= beta0 ==> truth >= best
            &&& best < beta0 ==> truth == best
        },
    }
}

proof fn lemma_scan_within_window(
    p: Position,
    moves: Seq<Move>,
    i: nat,
    depth: nat,
    alpha0: int,
    beta0: int,
    alpha: int,
    beta: int,
    best: int,
    counts: Map<u64, i32>,
    forced_capture: bool,
)
    requires
        i32::MIN <= alpha0 < beta0 <= i32::MAX,
        i <= moves.len(),
        scan_state(
            side_of(p),
            alpha0,
            beta0,
            alpha,
            beta,
            best,
            best_reply(p, moves, i, depth, counts, forced_capture),
        ),
    ensures
        within_window(
            scan_value(p, moves, i, depth, alpha, beta, best, counts, forced_capture),
            best_reply(p, moves, moves.len(), depth, counts, forced_capture),
            alpha0,
            beta0,
        ),
    decreases depth, 1nat, moves.len() - i,
{
    if i < moves.len() {
        let m = moves[i as int];
        let after = counts_after(p, m, counts);
        lemma_search_within_window(position_after(p, m), depth, alpha, beta, after, forced_capture);
        let found = search_value(position_after(p, m), depth, alpha, beta, after, forced_capture);
        let kept = preferred(side_of(p), found, best);
        assert(best_reply(p, moves, i + 1, depth, counts, forced_capture) == preferred(
            side_of(p),
            best_reply(p, moves, i, depth, counts, forced_capture),
            reply_score(p, m, depth, counts, forced_capture),
        ));
        match side_of(p) {
            Color::Black => {
                if kept >= beta {
                    lemma_best_reply_grows(p, moves, i + 1, moves.len(), depth, counts, forced_capture);
                } else {
                    let narrowed = if alpha >= kept {
                        alpha
                    } else {
                        kept
                    };
                    lemma_scan_within_window(
                        p,
                        moves,
                        i + 1,
                        depth,
                        alpha0,
                        beta0,
                        narrowed,
                        beta,
                        kept,
                        counts,
                        forced_capture,
                    );
                }
            },
            Color::White => {
                if kept <= alpha {
                    lemma_best_reply_grows(p, moves, i + 1, moves.len(), depth, counts, forced_capture);
                } else {
                    let narrowed = if beta <= kept {
                        beta
                    } else {
                        kept
                    };
                    lemma_scan_within_window(
                        p,
                        moves,
                        i + 1,
                        depth,
                        alpha0,
                        beta0,
                        alpha,
                        narrowed,
                        kept,
                        counts,
                        forced_capture,
                    );
                }
            },
        }
    }
}

/// More moves can only make the preferred score better for the side to
/// move: higher for Black, lower for White.
proof fn lemma_best_reply_grows(
    p: Position,
    moves: Seq<Move>,
    i: nat,
    n: nat,
    depth: nat,
    counts: Map<u64, i32>,
    forced_capture: bool,
)
    requires
        i <= n,
    ensures
        side_of(p) == Color::Black ==> best_reply(p, moves, n, depth, counts, forced_capture)
            >= best_reply(p, moves, i, depth, counts, forced_capture),
        side_of(p) == Color::White ==> best_reply(p, moves, n, depth, counts, forced_capture)
            <= best_reply(p, moves, i, depth, counts, forced_capture),
    decreases n - i,
{
    if i < n {
        lemma_best_reply_grows(p, moves, i, (n - 1) as nat, depth, counts, forced_capture);
    }
}

/// Whatever the window, the search returns a score that fits an `i32`.
pub proof fn lemma_search_value_range(
    p: Position,
    depth: nat,
    alpha: int,
    beta: int,
    counts: Map<u64, i32>,
    forced_capture: bool,
)
    ensures
        i32::MIN <= search_value(p, depth, alpha, beta, counts, forced_capture) <= i32::MAX,
    decreases depth, 0nat, 0nat,
{
    lemma_evaluation_bounds(p);
    if !is_drawn(p, counts) && status_of(p) != GameStatus::Won && depth != 0 {
        lemma_scan_value_range(
            p,
            candidates(p, forced_capture),
            0,
            (depth - 1) as nat,
            alpha,
            beta,
            opening_score(side_of(p)),
            counts,
            forced_capture,
        );
    }
}

proof fn lemma_scan_value_range(
    p: Position,
    moves: Seq<Move>,
    i: nat,
    depth: nat,
    alpha: int,
    beta: int,
    best: int,
    counts: Map<u64, i32>,
    forced_capture: bool,
)
    requires
        i32::MIN <= best <= i32::MAX,
    ensures
        i32::MIN <= scan_value(p, moves, i, depth, alpha, beta, best, counts, forced_capture)
            <= i32::MAX,
    decreases depth, 1nat, moves.len() - i,
{
    if i < moves.len() {
        let m = moves[i as int];
        let after = counts_after(p, m, counts);
        lemma_search_value_range(position_after(p, m), depth, alpha, beta, after, forced_capture);
        let found = search_value(position_after(p, m), depth, alpha, beta, after, forced_capture);
        let kept = preferred(side_of(p), found, best);
        match side_of(p) {
            Color::Black => {
                if kept < beta {
                    let narrowed = if alpha >= kept {
                        alpha
                    } else {
                        kept
                    };
                    lemma_scan_value_range(
                        p,
                        moves,
                        i + 1,
                        depth,
                        narrowed,
                        beta,
                        kept,
                        counts,
                        forced_capture,
                    );
                }
            },
            Color::White => {
                if kept > alpha {
                    let narrowed = if beta <= kept {
                        beta
                    } else {
                        kept
                    };
                    lemma_scan_value_range(
                        p,
                        moves,
                        i + 1,
                        depth,
                        alpha,
                        narrowed,
                        kept,
                        counts,
                        forced_capture,
                    );
                }
            },
        }
    }
}

/// With the widest window the search returns the score of the full search:
/// pruning changes the work, never the result.
pub proof fn lemma_full_window_is_exact(
    p: Position,
    depth: nat,
    counts: Map<u64, i32>,
    forced_capture: bool,
)
    ensures
        search_value(p, depth, i32::MIN as int, i32::MAX as int, counts, forced_capture)
            == minimax(p, depth, counts, forced_capture),
{
    lemma_search_within_window(p, depth, i32::MIN as int, i32::MAX as int, counts, forced_capture);
    lemma_search_value_range(p, depth, i32::MIN as int, i32::MAX as int, counts, forced_capture);
    lemma_minimax_range(p, depth, counts, forced_capture);
}

} // verus!
