//! The search: alpha-beta over the legal moves, and the choice of a move at
//! the root.

use crate::bitboard::{contains_square, has_square};
use crate::minimax::{
    best_outcome, candidates, captures_below, captures_of, chosen_index, counts_after, is_drawn,
    is_fit_to_play, lemma_candidates_are_legal, lemma_minimax_range, minimax, opponent,
    reply_depth, reply_score, BLACK_WINS, DRAW_HALFMOVES, WHITE_WINS,
};
use crate::play::MoveEval;
use crate::position::{
    moves_of, occupancy_of, pieces_of, position_after, side_of, status_of, Color, GameStatus,
    Move, Piece, Position,
};
use crate::predicted_eval::get_truncated_eval;
use crate::pruning::{lemma_search_within_window, scan_value, search_value, within_window};
use crate::tracker::DrawTracker;
use vstd::prelude::*;

verus! {

/// Whether a move takes a piece, by the squares that the two sides and the
/// pawns of the side to move stand on.
fn takes_a_piece(m: Move, own: u64, enemy: u64, own_pawns: u64) -> (r: bool)
    requires
        m.on_board(),
    ensures
        r == (has_square(enemy, m.to as int) || (has_square(own_pawns, m.from as int) && m.from % 8
            != m.to % 8 && !has_square(own, m.to as int) && !has_square(enemy, m.to as int))),
{
    if contains_square(enemy, m.to) {
        return true;
    }
    contains_square(own_pawns, m.from) && m.from % 8 != m.to % 8 && !contains_square(own, m.to)
}

/// The captures among the legal moves, in their order.
fn capture_moves(position: &Position, moves: &Vec<Move>) -> (r: Vec<Move>)
    requires
        moves@ == moves_of(*position),
        forall|i: int| 0 <= i < moves@.len() ==> (#[trigger] moves@[i]).on_board(),
    ensures
        r@ == captures_of(*position),
{
    let side = position.side_to_move();
    let other = match side {
        Color::White => Color::Black,
        Color::Black => Color::White,
    };
    let own = position.occupancy(side);
    let enemy = position.occupancy(other);
    let own_pawns = position.pieces(side, Piece::Pawn);
    let mut captures: Vec<Move> = Vec::new();
    let mut i: usize = 0;
    while i < moves.len()
        invariant
            i <= moves.len(),
            moves@ == moves_of(*position),
            forall|i: int| 0 <= i < moves@.len() ==> (#[trigger] moves@[i]).on_board(),
            side == side_of(*position),
            own == occupancy_of(*position, side),
            enemy == occupancy_of(*position, opponent(side)),
            own_pawns == pieces_of(*position, side, Piece::Pawn),
            captures@ == captures_below(*position, moves@, i as int),
        decreases moves.len() - i,
    {
        let m = moves[i];
        if takes_a_piece(m, own, enemy, own_pawns) {
            captures.push(m);
        }
        i = i + 1;
    }
    captures
}

/// The moves that may be played: where captures are forced and there is
/// one, the captures; else every legal move.
pub fn candidate_moves(position: &Position, forced_capture: bool) -> (r: Vec<Move>)
    ensures
        r@ == candidates(*position, forced_capture),
{
    let moves = position.legal_moves();
    if forced_capture {
        let captures = capture_moves(position, &moves);
        if captures.len() > 0 {
            return captures;
        }
    }
    moves
}

/// The score of the position after `piece_move`, searched `depth` plies
/// deep with the window from `alpha` to `beta`. The position reached is
/// counted once more on the line that leads through it, and on no other.
pub fn get_move_evaluation(
    piece_move: Move,
    board: &Position,
    depth: u32,
    alpha: i32,
    beta: i32,
    previous_boards: &DrawTracker,
    forced_capture: bool,
) -> (r: i32)
    requires
        moves_of(*board).contains(piece_move),
    ensures
        r == search_value(
            position_after(*board, piece_move),
            depth as nat,
            alpha as int,
            beta as int,
            counts_after(*board, piece_move, previous_boards@),
            forced_capture,
        ),
        is_drawn(
            position_after(*board, piece_move),
            counts_after(*board, piece_move, previous_boards@),
        ) ==> r == 0,
        alpha < beta ==> within_window(
            r as int,
            minimax(
                position_after(*board, piece_move),
                depth as nat,
                counts_after(*board, piece_move, previous_boards@),
                forced_capture,
            ),
            alpha as int,
            beta as int,
        ),
    decreases depth, 1nat,
{
    let board_with_move = board.play(piece_move);
    let prev_boards = previous_boards.with_move_applied(board_with_move.hash());
    search(&board_with_move, depth, alpha, beta, &prev_boards, forced_capture)
}

/// The score of `position` for White, searched `depth` plies deep with the
/// window from `alpha` to `beta`.
///
/// A drawn game scores 0, whatever the depth and the material: by
/// repetition on the line, by the board itself, or by the halfmove clock.
/// A checkmate scores the extreme in favour of the side that gave it. With
/// no depth left the static evaluation is returned. Else Black looks for
/// the highest score among the candidate moves and White for the lowest,
/// and the search stops looking as soon as the score reaches the far end of
/// the window. Where the window is not empty, the score stands to that of
/// the search without pruning as `within_window` says.
///
/// The search cannot run out of moves: a position that is neither drawn nor
/// won has a candidate move.
pub fn search(
    position: &Position,
    depth: u32,
    alpha: i32,
    beta: i32,
    tracker: &DrawTracker,
    forced_capture: bool,
) -> (r: i32)
    ensures
        r == search_value(
            *position,
            depth as nat,
            alpha as int,
            beta as int,
            tracker@,
            forced_capture,
        ),
        is_drawn(*position, tracker@) ==> r == 0,
        alpha < beta ==> within_window(
            r as int,
            minimax(*position, depth as nat, tracker@, forced_capture),
            alpha as int,
            beta as int,
        ),
        alpha == i32::MIN && beta == i32::MAX ==> r == minimax(
            *position,
            depth as nat,
            tracker@,
            forced_capture,
        ),
        !is_drawn(*position, tracker@) && status_of(*position) != GameStatus::Won ==> candidates(
            *position,
            forced_capture,
        ).len() > 0,
    decreases depth, 0nat,
{
    proof {
        lemma_minimax_range(*position, depth as nat, tracker@, forced_capture);
        if alpha < beta {
            lemma_search_within_window(
                *position,
                depth as nat,
                alpha as int,
                beta as int,
                tracker@,
                forced_capture,
            );
        }
    }
    if tracker.is_repetition() {
        return 0;
    }
    let status = position.status();
    proof {
        lemma_candidates_are_legal(*position, forced_capture);
    }
    if status == GameStatus::Drawn || position.halfmove_clock() >= DRAW_HALFMOVES {
        return 0;
    }
    let side = position.side_to_move();
    if status == GameStatus::Won {
        return match side {
            Color::Black => WHITE_WINS,
            Color::White => BLACK_WINS,
        };
    }
    if depth == 0 {
        return get_truncated_eval(position);
    }
    let moves = candidate_moves(position, forced_capture);
    let mut low = alpha;
    let mut high = beta;
    let mut evaluation = match side {
        Color::Black => i32::MIN,
        Color::White => i32::MAX,
    };
    let mut i: usize = 0;
    while i < moves.len()
        invariant
            i <= moves.len(),
            depth > 0,
            side == side_of(*position),
            moves@ == candidates(*position, forced_capture),
            forall|k: int| 0 <= k < moves@.len() ==> moves_of(*position).contains(#[trigger] moves@[k]),
            alpha < beta ==> within_window(
                search_value(
                    *position,
                    depth as nat,
                    alpha as int,
                    beta as int,
                    tracker@,
                    forced_capture,
                ),
                minimax(*position, depth as nat, tracker@, forced_capture),
                alpha as int,
                beta as int,
            ),
            i32::MIN <= minimax(*position, depth as nat, tracker@, forced_capture) <= i32::MAX,
            search_value(
                *position,
                depth as nat,
                alpha as int,
                beta as int,
                tracker@,
                forced_capture,
            ) == scan_value(
                *position,
                moves@,
                i as nat,
                (depth - 1) as nat,
                low as int,
                high as int,
                evaluation as int,
                tracker@,
                forced_capture,
            ),
        decreases moves.len() - i,
    {
        let cur_eval = get_move_evaluation(
            moves[i],
            position,
            depth - 1,
            low,
            high,
            tracker,
            forced_capture,
        );
        match side {
            Color::Black => {
                if cur_eval > evaluation {
                    evaluation = cur_eval;
                }
                if evaluation > low {
                    low = evaluation;
                }
                if evaluation >= high {
                    return evaluation;
                }
            },
            Color::White => {
                if cur_eval < evaluation {
                    evaluation = cur_eval;
                }
                if evaluation < high {
                    high = evaluation;
                }
                if evaluation <= low {
                    return evaluation;
                }
            },
        }
        i = i + 1;
    }
    evaluation
}

/// The move to play in `position`, with its score: of the candidate moves,
/// the one whose reply position, searched one ply less than `depth`, scores
/// worst for the side to move; of several such, the one that comes first.
/// `None` where there is no legal move.
///
/// The move is always a legal one, and a capture where captures are forced
/// and a legal capture exists.
pub fn best_move(
    position: &Position,
    depth: u32,
    tracker: &DrawTracker,
    forced_capture: bool,
) -> (r: Option<MoveEval>)
    ensures
        r == best_outcome(*position, depth as nat, tracker@, forced_capture),
        is_fit_to_play(*position, forced_capture, r),
{
    let moves = candidate_moves(position, forced_capture);
    proof {
        lemma_candidates_are_legal(*position, forced_capture);
    }
    if moves.len() == 0 {
        return None;
    }
    let replies: u32 = if depth == 0 {
        0
    } else {
        depth - 1
    };
    let side = position.side_to_move();
    let first = get_move_evaluation(
        moves[0],
        position,
        replies,
        i32::MIN,
        i32::MAX,
        tracker,
        forced_capture,
    );
    proof {
        lemma_reply_range(*position, moves@[0], replies as nat, tracker@, forced_capture);
    }
    let mut best = MoveEval { evaluation: first, best_move: moves[0] };
    let ghost mut chosen: int = 0;
    let mut i: usize = 1;
    while i < moves.len()
        invariant
            1 <= i <= moves.len(),
            side == side_of(*position),
            replies == reply_depth(depth as nat),
            moves@ == candidates(*position, forced_capture),
            forall|k: int| 0 <= k < moves@.len() ==> moves_of(*position).contains(#[trigger] moves@[k]),
            0 <= chosen < i,
            chosen == chosen_index(
                *position,
                moves@,
                i as nat,
                replies as nat,
                tracker@,
                forced_capture,
            ),
            best.best_move == moves@[chosen],
            best.evaluation == reply_score(
                *position,
                moves@[chosen],
                replies as nat,
                tracker@,
                forced_capture,
            ),
        decreases moves.len() - i,
    {
        proof {
            lemma_reply_range(*position, moves@[i as int], replies as nat, tracker@, forced_capture);
        }
        match side {
            Color::Black => {
                if best.evaluation < i32::MAX {
                    let found = get_move_evaluation(
                        moves[i],
                        position,
                        replies,
                        best.evaluation,
                        i32::MAX,
                        tracker,
                        forced_capture,
                    );
                    if found > best.evaluation {
                        best = MoveEval { evaluation: found, best_move: moves[i] };
                        proof {
                            chosen = i as int;
                        }
                    }
                }
            },
            Color::White => {
                if best.evaluation > i32::MIN {
                    let found = get_move_evaluation(
                        moves[i],
                        position,
                        replies,
                        i32::MIN,
                        best.evaluation,
                        tracker,
                        forced_capture,
                    );
                    if found < best.evaluation {
                        best = MoveEval { evaluation: found, best_move: moves[i] };
                        proof {
                            chosen = i as int;
                        }
                    }
                }
            },
        }
        i = i + 1;
    }
    Some(best)
}

/// The score of a reply is that of the position it leads to, and fits an
/// `i32`.
proof fn lemma_reply_range(
    p: Position,
    m: Move,
    depth: nat,
    counts: Map<u64, i32>,
    forced_capture: bool,
)
    ensures
        reply_score(p, m, depth, counts, forced_capture) == minimax(
            position_after(p, m),
            depth,
            counts_after(p, m, counts),
            forced_capture,
        ),
        i32::MIN <= reply_score(p, m, depth, counts, forced_capture) <= i32::MAX,
{
    lemma_minimax_range(position_after(p, m), depth, counts_after(p, m, counts), forced_capture);
}

} // verus!
