//! What the search computes, stated without pruning.
//!
//! Scores are for White: Black, who plays to lose as everyone here does,
//! picks the reply with the highest score, and White the one with the
//! lowest.

use crate::bitboard::has_square;
use crate::position::{
    clock_of, hash_of, moves_of, occupancy_of, pieces_of, position_after, side_of, status_of,
    Color, GameStatus, Move, Piece, Position,
};
use crate::play::MoveEval;
use crate::predicted_eval::{evaluation_of, lemma_evaluation_bounds};
use crate::tracker::{bumped, has_repetition};
use vstd::prelude::*;

verus! {

/// The score of a position in which Black has been checkmated.
pub const WHITE_WINS: i32 = i32::MAX;

/// The score of a position in which White has been checkmated.
pub const BLACK_WINS: i32 = i32::MIN;

/// The halfmove clock at which a game is drawn: fifty moves of each side.
pub const DRAW_HALFMOVES: u8 = 100;

/// The other side.
pub open spec fn opponent(color: Color) -> Color {
    match color {
        Color::White => Color::Black,
        Color::Black => Color::White,
    }
}

/// Whether `m` takes a piece: it lands on a piece of the side that is not
/// to move, or it is a pawn of the side to move that leaves its file for a
/// square on which nothing stands, which is how a pawn takes in passing.
pub open spec fn is_capture(p: Position, m: Move) -> bool {
    let mover = side_of(p);
    let takes_on_arrival = has_square(occupancy_of(p, opponent(mover)), m.to as int);
    let takes_in_passing = has_square(pieces_of(p, mover, Piece::Pawn), m.from as int) && m.from
        % 8 != m.to % 8 && !has_square(occupancy_of(p, mover), m.to as int) && !has_square(
        occupancy_of(p, opponent(mover)),
        m.to as int,
    );
    takes_on_arrival || takes_in_passing
}

/// The captures among the first `n` of `moves`, in their order.
pub open spec fn captures_below(p: Position, moves: Seq<Move>, n: int) -> Seq<Move>
    decreases n,
{
    if n <= 0 {
        Seq::empty()
    } else if is_capture(p, moves[n - 1]) {
        captures_below(p, moves, n - 1).push(moves[n - 1])
    } else {
        captures_below(p, moves, n - 1)
    }
}

/// The legal captures in `p`, in the order of the legal moves.
pub open spec fn captures_of(p: Position) -> Seq<Move> {
    captures_below(p, moves_of(p), moves_of(p).len() as int)
}

/// The moves that may be played in `p`: where captures are forced and there
/// is one, the captures; else every legal move.
pub open spec fn candidates(p: Position, forced_capture: bool) -> Seq<Move> {
    if forced_capture && captures_of(p).len() > 0 {
        captures_of(p)
    } else {
        moves_of(p)
    }
}

/// Whether the game is drawn in `p`: by repetition on the line, by the
/// board itself, or by the halfmove clock.
pub open spec fn is_drawn(p: Position, counts: Map<u64, i32>) -> bool {
    has_repetition(counts) || status_of(p) == GameStatus::Drawn || clock_of(p) >= DRAW_HALFMOVES
}

/// The score of a position in which the side to move has been checkmated.
pub open spec fn mate_score(loser: Color) -> int {
    match loser {
        Color::Black => WHITE_WINS as int,
        Color::White => BLACK_WINS as int,
    }
}

/// The score from which the side to move starts before it has looked at any
/// reply: the worst there is for its choice.
pub open spec fn opening_score(mover: Color) -> int {
    match mover {
        Color::Black => i32::MIN as int,
        Color::White => i32::MAX as int,
    }
}

/// The better of two scores in the eyes of the side to move.
pub open spec fn preferred(mover: Color, a: int, b: int) -> int {
    match mover {
        Color::Black => if a >= b {
            a
        } else {
            b
        },
        Color::White => if a <= b {
            a
        } else {
            b
        },
    }
}

/// The visit counts on the line that continues from `p` with `m`.
pub open spec fn counts_after(p: Position, m: Move, counts: Map<u64, i32>) -> Map<u64, i32> {
    bumped(counts, hash_of(position_after(p, m)))
}

/// The score of `p` searched `depth` plies deep, every line looked at.
pub open spec fn minimax(p: Position, depth: nat, counts: Map<u64, i32>, forced_capture: bool) -> int
    decreases depth, 0nat, 0nat,
{
    if is_drawn(p, counts) {
        0
    } else if status_of(p) == GameStatus::Won {
        mate_score(side_of(p))
    } else if depth == 0 {
        evaluation_of(p)
    } else {
        let moves = candidates(p, forced_capture);
        best_reply(p, moves, moves.len(), (depth - 1) as nat, counts, forced_capture)
    }
}

/// The score of the position after `m`, searched `depth` plies deep.
pub open spec fn reply_score(
    p: Position,
    m: Move,
    depth: nat,
    counts: Map<u64, i32>,
    forced_capture: bool,
) -> int
    decreases depth, 1nat, 0nat,
{
    minimax(position_after(p, m), depth, counts_after(p, m, counts), forced_capture)
}

/// The score that the side to move prefers among the first `n` of `moves`,
/// each reply searched `depth` plies deep.
pub open spec fn best_reply(
    p: Position,
    moves: Seq<Move>,
    n: nat,
    depth: nat,
    counts: Map<u64, i32>,
    forced_capture: bool,
) -> int
    decreases depth, 2nat, n,
{
    if n == 0 {
        opening_score(side_of(p))
    } else {
        preferred(
            side_of(p),
            best_reply(p, moves, (n - 1) as nat, depth, counts, forced_capture),
            reply_score(p, moves[n - 1], depth, counts, forced_capture),
        )
    }
}

/// The captures among the first `n` moves are moves among those `n`, each
/// is a capture, and none of the captures among them is missing.
pub proof fn lemma_captures_below(p: Position, moves: Seq<Move>, n: int)
    requires
        0 <= n <= moves.len(),
    ensures
        forall|i: int|
            0 <= i < captures_below(p, moves, n).len() ==> is_capture(
                p,
                #[trigger] captures_below(p, moves, n)[i],
            ) && moves.contains(captures_below(p, moves, n)[i]),
        forall|j: int|
            0 <= j < n && is_capture(p, #[trigger] moves[j]) ==> captures_below(
                p,
                moves,
                n,
            ).contains(moves[j]),
    decreases n,
{
    if n > 0 {
        lemma_captures_below(p, moves, n - 1);
        let before = captures_below(p, moves, n - 1);
        let now = captures_below(p, moves, n);
        let last = moves[n - 1];
        assert(moves.contains(last));
        if is_capture(p, last) {
            assert(now == before.push(last));
            assert(now[before.len() as int] == last);
            assert forall|j: int| 0 <= j < n && is_capture(p, #[trigger] moves[j]) implies now.contains(
                moves[j],
            ) by {
                if j < n - 1 {
                    let k = choose|k: int| 0 <= k < before.len() && before[k] == moves[j];
                    assert(now[k] == moves[j]);
                }
            }
        }
    }
}

/// Every candidate is a legal move, and where captures are forced and a
/// legal capture exists, every candidate is a capture.
pub proof fn lemma_candidates_are_legal(p: Position, forced_capture: bool)
    ensures
        forall|i: int|
            0 <= i < candidates(p, forced_capture).len() ==> moves_of(p).contains(
                #[trigger] candidates(p, forced_capture)[i],
            ),
        forced_capture && (exists|j: int|
            0 <= j < moves_of(p).len() && is_capture(p, #[trigger] moves_of(p)[j])) ==> forall|
            i: int,
        |
            0 <= i < candidates(p, forced_capture).len() ==> is_capture(
                p,
                #[trigger] candidates(p, forced_capture)[i],
            ),
        candidates(p, forced_capture).len() == 0 <==> moves_of(p).len() == 0,
{
    lemma_captures_below(p, moves_of(p), moves_of(p).len() as int);
    if forced_capture && (exists|j: int|
        0 <= j < moves_of(p).len() && is_capture(p, #[trigger] moves_of(p)[j])) {
        let j = choose|j: int| 0 <= j < moves_of(p).len() && is_capture(p, #[trigger] moves_of(p)[j]);
        assert(captures_of(p).contains(moves_of(p)[j]));
    }
    if captures_of(p).len() > 0 {
        assert(moves_of(p).contains(captures_of(p)[0]));
    }
}

/// How deep the replies to a root move are searched: the root ply itself
/// is free.
pub open spec fn reply_depth(depth: nat) -> nat {
    if depth == 0 {
        0
    } else {
        (depth - 1) as nat
    }
}

/// Whether the engine would rather leave the side to move with the score
/// `a` than with `b`. It looks for the score that is worst for the side to
/// move: the higher one for Black, the lower one for White.
pub open spec fn improves(mover: Color, a: int, b: int) -> bool {
    match mover {
        Color::Black => a > b,
        Color::White => a < b,
    }
}

/// The place, among the first `n` of `moves`, of the move that the engine
/// picks: a later move replaces an earlier one only where its score
/// improves on it.
pub open spec fn chosen_index(
    p: Position,
    moves: Seq<Move>,
    n: nat,
    depth: nat,
    counts: Map<u64, i32>,
    forced_capture: bool,
) -> int
    decreases n,
{
    if n <= 1 {
        0
    } else {
        let k = chosen_index(p, moves, (n - 1) as nat, depth, counts, forced_capture);
        if improves(
            side_of(p),
            reply_score(p, moves[n - 1], depth, counts, forced_capture),
            reply_score(p, moves[k], depth, counts, forced_capture),
        ) {
            n - 1
        } else {
            k
        }
    }
}

/// The move that the engine picks in `p` at `depth`, with its score: `None`
/// where there is no move to pick.
pub open spec fn best_outcome(
    p: Position,
    depth: nat,
    counts: Map<u64, i32>,
    forced_capture: bool,
) -> Option<MoveEval> {
    let moves = candidates(p, forced_capture);
    if moves.len() == 0 {
        None
    } else {
        let k = chosen_index(p, moves, moves.len(), reply_depth(depth), counts, forced_capture);
        Some(
            MoveEval {
                evaluation: reply_score(p, moves[k], reply_depth(depth), counts, forced_capture) as i32,
                best_move: moves[k],
            },
        )
    }
}

/// The move picked among the first `n` is one of them; no other of them
/// improves on it; and it improves on every move before it, so that of
/// several moves with the extreme score the earliest is picked.
pub proof fn lemma_chosen_index(
    p: Position,
    moves: Seq<Move>,
    n: nat,
    depth: nat,
    counts: Map<u64, i32>,
    forced_capture: bool,
)
    requires
        1 <= n <= moves.len(),
    ensures
        0 <= chosen_index(p, moves, n, depth, counts, forced_capture) < n,
        forall|j: int|
            0 <= j < n ==> !improves(
                side_of(p),
                #[trigger] reply_score(p, moves[j], depth, counts, forced_capture),
                reply_score(
                    p,
                    moves[chosen_index(p, moves, n, depth, counts, forced_capture)],
                    depth,
                    counts,
                    forced_capture,
                ),
            ),
        forall|j: int|
            0 <= j < chosen_index(p, moves, n, depth, counts, forced_capture) ==> improves(
                side_of(p),
                reply_score(
                    p,
                    moves[chosen_index(p, moves, n, depth, counts, forced_capture)],
                    depth,
                    counts,
                    forced_capture,
                ),
                #[trigger] reply_score(p, moves[j], depth, counts, forced_capture),
            ),
    decreases n,
{
    if n > 1 {
        lemma_chosen_index(p, moves, (n - 1) as nat, depth, counts, forced_capture);
    }
}

/// Whether some legal move in `p` takes a piece.
pub open spec fn has_capture(p: Position) -> bool {
    exists|j: int| 0 <= j < moves_of(p).len() && is_capture(p, #[trigger] moves_of(p)[j])
}

/// Whether `outcome` is fit to be played in `p`: there is one wherever `p`
/// has a legal move; its move is legal; and its move takes a piece where
/// captures are forced and some legal move takes one.
pub open spec fn is_fit_to_play(p: Position, forced_capture: bool, outcome: Option<MoveEval>) -> bool {
    &&& outcome.is_some() <==> moves_of(p).len() > 0
    &&& outcome matches Some(found) ==> moves_of(p).contains(found.best_move) && (forced_capture
        && has_capture(p) ==> is_capture(p, found.best_move))
}

/// The move that the engine picks is fit to be played, whatever the depth
/// and the history.
pub proof fn lemma_best_outcome_is_fit_to_play(
    p: Position,
    depth: nat,
    counts: Map<u64, i32>,
    forced_capture: bool,
)
    ensures
        is_fit_to_play(p, forced_capture, best_outcome(p, depth, counts, forced_capture)),
{
    lemma_candidates_are_legal(p, forced_capture);
    let moves = candidates(p, forced_capture);
    if moves.len() > 0 {
        lemma_chosen_index(p, moves, moves.len(), reply_depth(depth), counts, forced_capture);
    }
}

/// Every score fits an `i32`.
pub proof fn lemma_minimax_range(
    p: Position,
    depth: nat,
    counts: Map<u64, i32>,
    forced_capture: bool,
)
    ensures
        i32::MIN <= minimax(p, depth, counts, forced_capture) <= i32::MAX,
    decreases depth, 0nat, 0nat,
{
    lemma_evaluation_bounds(p);
    if !is_drawn(p, counts) && status_of(p) != GameStatus::Won && depth != 0 {
        let moves = candidates(p, forced_capture);
        lemma_best_reply_range(p, moves, moves.len(), (depth - 1) as nat, counts, forced_capture);
    }
}

/// The preferred score of any number of replies fits an `i32`.
pub proof fn lemma_best_reply_range(
    p: Position,
    moves: Seq<Move>,
    n: nat,
    depth: nat,
    counts: Map<u64, i32>,
    forced_capture: bool,
)
    ensures
        i32::MIN <= best_reply(p, moves, n, depth, counts, forced_capture) <= i32::MAX,
    decreases depth, 2nat, n,
{
    if n > 0 {
        lemma_best_reply_range(p, moves, (n - 1) as nat, depth, counts, forced_capture);
        lemma_minimax_range(
            position_after(p, moves[n - 1]),
            depth,
            counts_after(p, moves[n - 1], counts),
            forced_capture,
        );
        assert(reply_score(p, moves[n - 1], depth, counts, forced_capture) == minimax(
            position_after(p, moves[n - 1]),
            depth,
            counts_after(p, moves[n - 1], counts),
            forced_capture,
        ));
    }
}

} // verus!
