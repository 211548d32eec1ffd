//! The static evaluator: material and piece-square tables, in centipawns,
//! from White's point of view.

use crate::bitboard::{
    contains_square, count_below, count_of, count_squares, has_square, lemma_count_bounds,
};
use crate::position::{pieces_of, Color, Piece, Position};
use vstd::prelude::*;

verus! {

/// Pawns. Row 0 is the eighth rank.
pub const PAWN_PIECE_SQUARE_TABLE: [[i8; 8]; 8] = [
    [0, 0, 0, 0, 0, 0, 0, 0],
    [50, 50, 50, 50, 50, 50, 50, 50],
    [10, 10, 20, 30, 30, 20, 10, 10],
    [5, 5, 10, 25, 25, 10, 5, 5],
    [0, 0, 0, 20, 20, 0, 0, 0],
    [5, -5, -10, 0, 0, -10, -5, 5],
    [5, 10, 10, -20, -20, 10, 10, 5],
    [0, 0, 0, 0, 0, 0, 0, 0],
];

/// Knights. Row 0 is the eighth rank.
pub const KNIGHT_PIECE_SQUARE_TABLE: [[i8; 8]; 8] = [
    [-50, -40, -30, -30, -30, -30, -40, -50],
    [-40, -20, 0, 0, 0, 0, -20, -40],
    [-40, -20, 0, 0, 0, 0, -20, -40],
    [-30, 5, 15, 20, 20, 15, 5, -30],
    [-30, 0, 15, 20, 20, 15, 0, -30],
    [-30, 5, 10, 15, 15, 10, 5, -30],
    [-40, -20, 0, 5, 5, 0, -20, -40],
    [-50, -40, -30, -30, -30, -30, -40, -50],
];

/// Bishops. Row 0 is the eighth rank.
pub const BISHIOP_PIECE_SQUARE_TABLE: [[i8; 8]; 8] = [
    [-20, -10, -10, -10, -10, -10, -10, -20],
    [-10, 0, 0, 0, 0, 0, 0, -10],
    [-10, 0, 5, 10, 10, 5, 0, -10],
    [-10, 5, 5, 10, 10, 5, 5, -10],
    [-10, 0, 10, 10, 10, 10, 0, -10],
    [-10, 10, 10, 10, 10, 10, 10, -10],
    [-10, 5, 0, 0, 0, 0, 5, -10],
    [-20, -10, -10, -10, -10, -10, -10, -20],
];

/// Rooks. Row 0 is the eighth rank.
pub const ROOK_PIECE_SQUARE_TABLE: [[i8; 8]; 8] = [
    [0, 0, 0, 0, 0, 0, 0, 0],
    [5, 10, 10, 10, 10, 10, 10, 5],
    [-5, 0, 0, 0, 0, 0, 0, -5],
    [-5, 0, 0, 0, 0, 0, 0, -5],
    [-5, 0, 0, 0, 0, 0, 0, -5],
    [-5, 0, 0, 0, 0, 0, 0, -5],
    [-5, 0, 0, 0, 0, 0, 0, -5],
    [0, 0, 0, 5, 5, 0, 0, 0],
];

/// Queens. Row 0 is the eighth rank.
pub const QUEEN_PIECE_SQUARE_TABLE: [[i8; 8]; 8] = [
    [-20, -10, -10, -5, -5, -10, -10, -20],
    [-10, 0, 0, 0, 0, 0, 0, -10],
    [-10, 0, 5, 5, 5, 5, 0, -10],
    [-5, 0, 5, 5, 5, 5, 0, -5],
    [0, 0, 5, 5, 5, 5, 0, -5],
    [-10, 5, 5, 5, 5, 5, 0, -10],
    [-10, 0, 5, 0, 0, 0, 0, -10],
    [-20, -10, -10, -5, -5, -10, -10, -20],
];

/// The king in the middle game. Row 0 is the eighth rank.
pub const KING_MIDDLE_GAME_PIECE_SQUARE_TABLE: [[i8; 8]; 8] = [
    [-30, -40, -40, -50, -50, -40, -40, -30],
    [-30, -40, -40, -50, -50, -40, -40, -30],
    [-30, -40, -40, -50, -50, -40, -40, -30],
    [-30, -40, -40, -50, -50, -40, -40, -30],
    [-20, -30, -30, -40, -40, -30, -30, -20],
    [-10, -20, -20, -20, -20, -20, -20, -10],
    [20, 20, 0, 0, 0, 0, 20, 20],
    [20, 30, 10, 0, 0, 10, 30, 20],
];

/// The entry of a kind's table. The king always reads the middle game
/// table.
pub open spec fn table_value(piece: Piece, row: int, col: int) -> int {
    match piece {
        Piece::Pawn => PAWN_PIECE_SQUARE_TABLE[row][col] as int,
        Piece::Knight => KNIGHT_PIECE_SQUARE_TABLE[row][col] as int,
        Piece::Bishop => BISHIOP_PIECE_SQUARE_TABLE[row][col] as int,
        Piece::Rook => ROOK_PIECE_SQUARE_TABLE[row][col] as int,
        Piece::Queen => QUEEN_PIECE_SQUARE_TABLE[row][col] as int,
        Piece::King => KING_MIDDLE_GAME_PIECE_SQUARE_TABLE[row][col] as int,
    }
}

/// The entry of a kind's table.
pub fn table_entry(piece: Piece, row: usize, col: usize) -> (r: i8)
    requires
        row < 8,
        col < 8,
    ensures
        r == table_value(piece, row as int, col as int),
        -50 <= r <= 50,
{
    match piece {
        Piece::Pawn => PAWN_PIECE_SQUARE_TABLE[row][col],
        Piece::Knight => KNIGHT_PIECE_SQUARE_TABLE[row][col],
        Piece::Bishop => BISHIOP_PIECE_SQUARE_TABLE[row][col],
        Piece::Rook => ROOK_PIECE_SQUARE_TABLE[row][col],
        Piece::Queen => QUEEN_PIECE_SQUARE_TABLE[row][col],
        Piece::King => KING_MIDDLE_GAME_PIECE_SQUARE_TABLE[row][col],
    }
}

/// A row and a column of a piece-square table.
pub struct RowAndCol {
    pub row: usize,
    pub col: usize,
}

/// The table cell that a White piece on `square` reads: the first rank is
/// the last row, and the a-file the last column.
pub fn index_to_row_and_col(square: u8) -> (r: RowAndCol)
    requires
        square < 64,
    ensures
        r.row == 7 - square / 8,
        r.col == 7 - square % 8,
{
    let index = square as usize;
    RowAndCol { row: 7 - (index / 8), col: 7 - (index % 8) }
}

/// What one piece on `square` is worth by its place, for White: a White
/// piece reads its cell of the table; a Black piece reads the cell mirrored
/// in both directions, and counts against White.
pub open spec fn square_value(piece: Piece, color: Color, square: int) -> int {
    let row = 7 - square / 8;
    let col = 7 - square % 8;
    match color {
        Color::White => table_value(piece, row, col),
        Color::Black => -table_value(piece, 7 - row, 7 - col),
    }
}

/// The sum of `square_value` over the squares of the set below `n`.
pub open spec fn square_sum_below(piece: Piece, color: Color, bits: u64, n: int) -> int
    decreases n,
{
    if n <= 0 {
        0
    } else {
        square_sum_below(piece, color, bits, n - 1) + if has_square(bits, n - 1) {
            square_value(piece, color, n - 1)
        } else {
            0
        }
    }
}

/// The sum of `square_value` over the squares of the set.
pub open spec fn square_sum(piece: Piece, color: Color, bits: u64) -> int {
    square_sum_below(piece, color, bits, 64)
}

pub proof fn lemma_square_sum_bounds(piece: Piece, color: Color, bits: u64, n: int)
    requires
        0 <= n <= 64,
    ensures
        -50 * n <= square_sum_below(piece, color, bits, n) <= 50 * n,
    decreases n,
{
    if n > 0 {
        lemma_square_sum_bounds(piece, color, bits, n - 1);
        lemma_table_bounds(piece, 7 - (n - 1) / 8, 7 - (n - 1) % 8);
        lemma_table_bounds(piece, (n - 1) / 8, (n - 1) % 8);
    }
}

pub proof fn lemma_table_bounds(piece: Piece, row: int, col: int)
    requires
        0 <= row < 8,
        0 <= col < 8,
    ensures
        -50 <= table_value(piece, row, col) <= 50,
{
}

/// The positional worth, for White, of the pieces of one kind and colour
/// that stand on the squares of `bits`: no more than 50 a piece, either way.
pub fn score_squares(piece: Piece, color: Color, bits: u64) -> (r: i32)
    ensures
        r == square_sum(piece, color, bits),
        -50 * count_of(bits) <= r <= 50 * count_of(bits),
        -3200 <= r <= 3200,
{
    let mut total: i32 = 0;
    let mut square: u8 = 0;
    while square < 64
        invariant
            square <= 64,
            total == square_sum_below(piece, color, bits, square as int),
            -50 * count_below(bits, square as int) <= total <= 50 * count_below(
                bits,
                square as int,
            ),
            0 <= count_below(bits, square as int) <= square,
        decreases 64 - square,
    {
        if contains_square(bits, square) {
            let index = index_to_row_and_col(square);
            match color {
                Color::White => {
                    total = total + table_entry(piece, index.row, index.col) as i32;
                },
                Color::Black => {
                    total = total - table_entry(piece, 7 - index.row, 7 - index.col) as i32;
                },
            }
        }
        square = square + 1;
    }
    total
}

/// What a piece of a kind is worth in pawns. Kings are not counted.
pub open spec fn piece_weight(piece: Piece) -> int {
    match piece {
        Piece::Pawn => 1,
        Piece::Knight => 3,
        Piece::Bishop => 3,
        Piece::Rook => 5,
        Piece::Queen => 9,
        Piece::King => 0,
    }
}

/// The pieces of one side in `p`, in pawns.
pub open spec fn side_material(p: Position, color: Color) -> int {
    count_of(pieces_of(p, color, Piece::Pawn)) * piece_weight(Piece::Pawn)
        + count_of(pieces_of(p, color, Piece::Knight)) * piece_weight(Piece::Knight)
        + count_of(pieces_of(p, color, Piece::Bishop)) * piece_weight(Piece::Bishop)
        + count_of(pieces_of(p, color, Piece::Rook)) * piece_weight(Piece::Rook)
        + count_of(pieces_of(p, color, Piece::Queen)) * piece_weight(Piece::Queen)
}

/// The material balance of `p` in centipawns: White's pieces less Black's.
pub open spec fn material_score(p: Position) -> int {
    100 * (side_material(p, Color::White) - side_material(p, Color::Black))
}

/// The positional worth, for White, of the pieces of one kind in `p`.
pub open spec fn piece_square_score(p: Position, piece: Piece) -> int {
    square_sum(piece, Color::White, pieces_of(p, Color::White, piece)) + square_sum(
        piece,
        Color::Black,
        pieces_of(p, Color::Black, piece),
    )
}

/// The positional worth of `p` for White, all kinds together.
pub open spec fn positional_score(p: Position) -> int {
    piece_square_score(p, Piece::Pawn) + piece_square_score(p, Piece::Rook) + piece_square_score(
        p,
        Piece::Bishop,
    ) + piece_square_score(p, Piece::Knight) + piece_square_score(p, Piece::Queen)
        + piece_square_score(p, Piece::King)
}

/// The static evaluation of `p`: material and position, for White.
pub open spec fn evaluation_of(p: Position) -> int {
    material_score(p) + positional_score(p)
}

/// The static evaluation stays far inside the range of `i32`.
pub proof fn lemma_evaluation_bounds(p: Position)
    ensures
        -172800 <= evaluation_of(p) <= 172800,
{
    lemma_side_material_bounds(p, Color::White);
    lemma_side_material_bounds(p, Color::Black);
    lemma_piece_square_bounds(p, Piece::Pawn);
    lemma_piece_square_bounds(p, Piece::Knight);
    lemma_piece_square_bounds(p, Piece::Bishop);
    lemma_piece_square_bounds(p, Piece::Rook);
    lemma_piece_square_bounds(p, Piece::Queen);
    lemma_piece_square_bounds(p, Piece::King);
}

proof fn lemma_side_material_bounds(p: Position, color: Color)
    ensures
        0 <= side_material(p, color) <= 1344,
{
    lemma_count_bounds(pieces_of(p, color, Piece::Pawn), 64);
    lemma_count_bounds(pieces_of(p, color, Piece::Knight), 64);
    lemma_count_bounds(pieces_of(p, color, Piece::Bishop), 64);
    lemma_count_bounds(pieces_of(p, color, Piece::Rook), 64);
    lemma_count_bounds(pieces_of(p, color, Piece::Queen), 64);
}

proof fn lemma_piece_square_bounds(p: Position, piece: Piece)
    ensures
        -6400 <= piece_square_score(p, piece) <= 6400,
{
    lemma_square_sum_bounds(piece, Color::White, pieces_of(p, Color::White, piece), 64);
    lemma_square_sum_bounds(piece, Color::Black, pieces_of(p, Color::Black, piece), 64);
}

/// The pieces of one side, in pawns: no more than sixteen of a kind.
fn side_material_of(board: &Position, color: Color) -> (r: i32)
    ensures
        r == side_material(*board, color),
        0 <= r <= 336,
{
    let pawns = count_squares(board.pieces(color, Piece::Pawn)) as i32;
    let knights = count_squares(board.pieces(color, Piece::Knight)) as i32;
    let bishops = count_squares(board.pieces(color, Piece::Bishop)) as i32;
    let rooks = count_squares(board.pieces(color, Piece::Rook)) as i32;
    let queens = count_squares(board.pieces(color, Piece::Queen)) as i32;
    pawns + knights * 3 + bishops * 3 + rooks * 5 + queens * 9
}

/// The material balance in centipawns, for White: a pawn counts 100, a
/// knight or a bishop 300, a rook 500, a queen 900.
pub fn get_material_evaluation(board: &Position) -> (r: i32)
    ensures
        r == material_score(*board),
        -33600 <= r <= 33600,
{
    let white = side_material_of(board, Color::White);
    let black = side_material_of(board, Color::Black);
    (white - black) * 100
}

/// The positional worth, for White, of the pieces of one kind.
pub fn piece_square_evaluation(board: &Position, piece: Piece) -> (r: i32)
    ensures
        r == piece_square_score(*board, piece),
        -1600 <= r <= 1600,
{
    let white = score_squares(piece, Color::White, board.pieces(Color::White, piece));
    let black = score_squares(piece, Color::Black, board.pieces(Color::Black, piece));
    white + black
}

/// The positional worth of the pawns of both sides, for White.
pub fn get_pawn_piece_square_evaluation(board: &Position) -> (r: i32)
    ensures
        r == piece_square_score(*board, Piece::Pawn),
{
    piece_square_evaluation(board, Piece::Pawn)
}

/// The positional worth of the bishops of both sides, for White.
pub fn get_bishiop_piece_square_evaluation(board: &Position) -> (r: i32)
    ensures
        r == piece_square_score(*board, Piece::Bishop),
{
    piece_square_evaluation(board, Piece::Bishop)
}

/// The positional worth of the knights of both sides, for White.
pub fn get_knight_piece_square_evaluation(board: &Position) -> (r: i32)
    ensures
        r == piece_square_score(*board, Piece::Knight),
{
    piece_square_evaluation(board, Piece::Knight)
}

/// The positional worth of the rooks of both sides, for White.
pub fn get_rook_piece_square_evaluation(board: &Position) -> (r: i32)
    ensures
        r == piece_square_score(*board, Piece::Rook),
{
    piece_square_evaluation(board, Piece::Rook)
}

/// The positional worth of the queens of both sides, for White.
pub fn get_queen_piece_square_evaluation(board: &Position) -> (r: i32)
    ensures
        r == piece_square_score(*board, Piece::Queen),
{
    piece_square_evaluation(board, Piece::Queen)
}

/// The positional worth of the kings of both sides, for White.
pub fn get_king_piece_square_evaluation(board: &Position) -> (r: i32)
    ensures
        r == piece_square_score(*board, Piece::King),
{
    piece_square_evaluation(board, Piece::King)
}

/// The positional worth of the position for White, all kinds together.
pub fn get_piece_square_evaluation(board: &Position) -> (r: i32)
    ensures
        r == positional_score(*board),
        -9600 <= r <= 9600,
{
    let mut value: i32 = 0;
    value = value + piece_square_evaluation(board, Piece::Pawn);
    value = value + piece_square_evaluation(board, Piece::Rook);
    value = value + piece_square_evaluation(board, Piece::Bishop);
    value = value + piece_square_evaluation(board, Piece::Knight);
    value = value + piece_square_evaluation(board, Piece::Queen);
    value = value + piece_square_evaluation(board, Piece::King);
    value
}

/// The static evaluation of a position: positive where White stands
/// better. It stays far from the scores of a checkmate.
pub fn get_truncated_eval(board: &Position) -> (r: i32)
    ensures
        r == evaluation_of(*board),
        -64000 <= r <= 64000,
{
    get_material_evaluation(board) + get_piece_square_evaluation(board)
}

} // verus!
