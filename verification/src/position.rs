//! The rules of chess, as `cozy_chess` answers them.
//!
//! A [`Position`] carries a `cozy_chess::Board`. Everything the engine needs
//! to know about a position is asked of that board through the functions of
//! this module, and each answer has a name that contracts can speak of.
//!
//! The board asks one thing of a position before it answers: that both
//! kings stand on it, and not next to each other. Every [`Position`] is such
//! a position.

use crate::bitboard::{count_of, kings_apart, kings_stand_apart};
use vstd::prelude::*;

verus! {

/// `cozy_chess::Board`, carried as it is: nothing inside it is read here.
#[verifier::external_type_specification]
#[verifier::external_body]
pub struct ExBoard(cozy_chess::Board);

/// `cozy_chess::PieceMoves`, a batch of moves as the generator hands them
/// out, carried as it is.
#[verifier::external_type_specification]
#[verifier::external_body]
pub struct ExPieceMoves(cozy_chess::PieceMoves);

/// `cozy_chess::Board`'s `clone`, which is derived: the copy equals the
/// board it was made from.
pub assume_specification[ <cozy_chess::Board as Clone>::clone ](
    board: &cozy_chess::Board,
) -> (r: cozy_chess::Board)
    ensures
        r == *board,
;

/// A side.
#[derive(Clone, Copy, Debug, PartialEq, Eq, Structural)]
pub enum Color {
    White,
    Black,
}

/// A kind of piece.
#[derive(Clone, Copy, Debug, PartialEq, Eq, Structural)]
pub enum Piece {
    Pawn,
    Knight,
    Bishop,
    Rook,
    Queen,
    King,
}

/// How a game stands, repetition aside.
#[derive(Clone, Copy, Debug, PartialEq, Eq, Structural)]
pub enum GameStatus {
    /// The side to move has been checkmated.
    Won,
    /// Stalemate, or the halfmove clock has run out.
    Drawn,
    Ongoing,
}

/// A move between two squares. Squares are numbered rank by rank from
/// White's side: a1 is 0, b1 is 1, h8 is 63.
#[derive(Clone, Copy, Debug, PartialEq, Eq, Structural)]
pub struct Move {
    pub from: u8,
    pub to: u8,
    pub promotion: Option<Piece>,
}

impl Piece {
    /// The place of a kind in the order pawn, knight, bishop, rook, queen,
    /// king.
    pub open spec fn index(self) -> int {
        match self {
            Piece::Pawn => 0,
            Piece::Knight => 1,
            Piece::Bishop => 2,
            Piece::Rook => 3,
            Piece::Queen => 4,
            Piece::King => 5,
        }
    }

    /// The kind at a place in that order, if there is one.
    pub fn from_index(index: usize) -> (r: Option<Piece>)
        ensures
            index >= 6 ==> r.is_none(),
            index < 6 ==> r.is_some() && r.unwrap().index() == index,
    {
        match index {
            0 => Some(Piece::Pawn),
            1 => Some(Piece::Knight),
            2 => Some(Piece::Bishop),
            3 => Some(Piece::Rook),
            4 => Some(Piece::Queen),
            5 => Some(Piece::King),
            _ => None,
        }
    }
}

impl Move {
    /// Both squares are on the board.
    pub open spec fn on_board(self) -> bool {
        self.from < 64 && self.to < 64
    }
}

/// A position of a game: placement, side to move, castling and en passant
/// rights, and the two move counters.
#[derive(Debug)]
pub struct Position {
    board: cozy_chess::Board,
}

impl Clone for Position {
    fn clone(&self) -> (r: Position)
        ensures
            r == *self,
    {
        proof {
            use_type_invariant(self);
        }
        Position { board: self.board.clone() }
    }
}

/// The position from which a game starts, as FEN.
pub const START_FEN: &'static str = "rnbqkbnr/pppppppp/8/8/8/8/PPPPPPPP/RNBQKBNR w KQkq - 0 1";

/// The position from which a game starts.
pub open spec fn start_position() -> Position {
    position_of_fen(START_FEN@).unwrap()
}

/// The side to move in `p`.
pub uninterp spec fn side_of(p: Position) -> Color;

/// The status of `p`.
pub uninterp spec fn status_of(p: Position) -> GameStatus;

/// The hash of `p`.
pub uninterp spec fn hash_of(p: Position) -> u64;

/// The halfmove clock of `p`.
pub uninterp spec fn clock_of(p: Position) -> u8;

/// The squares that hold a piece of `color`, as a set of bits: bit `i` is
/// set where square `i` holds one.
pub uninterp spec fn occupancy_of(p: Position, color: Color) -> u64;

/// The squares that hold a `piece` of `color`, as a set of bits.
pub uninterp spec fn pieces_of(p: Position, color: Color, piece: Piece) -> u64;

/// The legal moves in `p`, in the order in which they are generated.
pub uninterp spec fn moves_of(p: Position) -> Seq<Move>;

/// The position reached from `p` by `m`.
pub uninterp spec fn position_after(p: Position, m: Move) -> Position;

/// The position that a FEN text describes, if it describes one.
pub uninterp spec fn position_of_fen(fen: Seq<char>) -> Option<Position>;

/// The move that a text in coordinate notation denotes, if it denotes one.
pub uninterp spec fn move_of_text(text: Seq<char>) -> Option<Move>;

/// Whether both kings stand on the board of `p`, one of each side, and not
/// on squares that touch. The moves of such a position can be generated, and
/// every legal move leads to such a position again: no king can be taken.
pub open spec fn kings_in_place(p: Position) -> bool {
    kings_apart(pieces_of(p, Color::White, Piece::King), pieces_of(p, Color::Black, Piece::King))
}

/// The position that a FEN text describes, if it describes one with its
/// kings in place.
pub open spec fn playable_position_of_fen(fen: Seq<char>) -> Option<Position> {
    match position_of_fen(fen) {
        Some(p) => if kings_in_place(p) {
            Some(p)
        } else {
            None
        },
        None => None,
    }
}

impl Position {
    #[verifier::type_invariant]
    spec fn playable(self) -> bool {
        kings_in_place(self)
    }

    /// The position from which a game starts.
    pub fn startpos() -> (r: Position)
        ensures
            r == start_position(),
            kings_in_place(r),
    {
        board_startpos()
    }

    /// The position that a FEN text describes, or `None` where the text
    /// describes no valid position, or one without its kings in place.
    pub fn from_fen(fen: &str) -> (r: Option<Position>)
        ensures
            r == playable_position_of_fen(fen@),
    {
        match board_from_fen(fen) {
            Some(board) => {
                let white = board_colored_pieces(&board, Color::White, Piece::King);
                let black = board_colored_pieces(&board, Color::Black, Piece::King);
                if kings_stand_apart(white, black) {
                    Some(Position { board })
                } else {
                    None
                }
            },
            None => None,
        }
    }

    /// The side to move.
    pub fn side_to_move(&self) -> (r: Color)
        ensures
            r == side_of(*self),
    {
        board_side_to_move(self)
    }

    /// Won, drawn or ongoing, by the board alone. An ongoing game has a
    /// legal move. The kings of the position are in place, as they are in
    /// every position.
    pub fn status(&self) -> (r: GameStatus)
        ensures
            r == status_of(*self),
            r == GameStatus::Ongoing ==> moves_of(*self).len() > 0,
            kings_in_place(*self),
    {
        proof {
            use_type_invariant(self);
        }
        board_status(self)
    }

    /// The hash of the position. The two move counters do not enter it.
    pub fn hash(&self) -> (r: u64)
        ensures
            r == hash_of(*self),
    {
        board_hash(self)
    }

    /// The number of halfmoves since a pawn moved or a piece was taken.
    pub fn halfmove_clock(&self) -> (r: u8)
        ensures
            r == clock_of(*self),
    {
        board_halfmove_clock(self)
    }

    /// The squares that `color` occupies, as a set of bits.
    pub fn occupancy(&self, color: Color) -> (r: u64)
        ensures
            r == occupancy_of(*self, color),
    {
        board_colors(self, color)
    }

    /// The squares that hold a `piece` of `color`, as a set of bits. No
    /// side has more than sixteen pieces.
    pub fn pieces(&self, color: Color, piece: Piece) -> (r: u64)
        ensures
            r == pieces_of(*self, color, piece),
            count_of(r) <= 16,
    {
        board_colored_pieces(&self.board, color, piece)
    }

    /// Every legal move, in the order in which they are generated. The
    /// kings of the position are in place, as they are in every position.
    pub fn legal_moves(&self) -> (r: Vec<Move>)
        ensures
            r@ == moves_of(*self),
            forall|i: int| 0 <= i < r@.len() ==> (#[trigger] r@[i]).on_board(),
            kings_in_place(*self),
    {
        proof {
            use_type_invariant(self);
        }
        board_generate_moves(self)
    }

    /// Whether `m` is a legal move.
    pub fn is_legal(&self, m: Move) -> (r: bool)
        ensures
            r == moves_of(*self).contains(m),
    {
        let moves = self.legal_moves();
        let mut i: usize = 0;
        while i < moves.len()
            invariant
                i <= moves.len(),
                moves@ == moves_of(*self),
                forall|k: int| 0 <= k < i ==> moves@[k] != m,
            decreases moves.len() - i,
        {
            if moves[i] == m {
                return true;
            }
            i = i + 1;
        }
        false
    }

    /// The position after a legal move. Its kings are in place again.
    pub fn play(&self, m: Move) -> (r: Position)
        requires
            moves_of(*self).contains(m),
        ensures
            r == position_after(*self, m),
            kings_in_place(r),
    {
        proof {
            use_type_invariant(self);
        }
        board_play(self, m)
    }

    /// The position after `m`, or `None` where `m` is not a legal move.
    pub fn try_play(&self, m: Move) -> (r: Option<Position>)
        ensures
            r == if moves_of(*self).contains(m) {
                Some(position_after(*self, m))
            } else {
                None
            },
    {
        if self.is_legal(m) {
            Some(self.play(m))
        } else {
            None
        }
    }
}

impl Move {
    /// The move that a text in coordinate notation denotes, such as `e2e4`
    /// or `e7e8q`, or `None` where the text denotes none. A move that comes
    /// back lies on the board.
    pub fn parse(text: &str) -> (r: Option<Move>)
        ensures
            r == move_of_text(text@),
            r matches Some(m) ==> m.on_board(),
    {
        move_from_str(text)
    }
}

/// `cozy_chess::Board::startpos`: the position from which a game starts,
/// which is the one that `START_FEN` describes. Its kings stand on e1 and
/// e8.
#[verifier::external_body]
fn board_startpos() -> (r: Position)
    ensures
        Some(r) == position_of_fen(START_FEN@),
        kings_in_place(r),
{
    Position { board: cozy_chess::Board::startpos() }
}

/// `cozy_chess::Board::from_fen`, for plain (not Shredder) FEN: the board
/// that the text describes, or `None` where the text is no FEN of a board
/// that the outside crate holds valid. Such a board may have its kings on
/// squares that touch.
#[verifier::external_body]
fn board_from_fen(fen: &str) -> (r: Option<cozy_chess::Board>)
    ensures
        match r {
            Some(board) => position_of_fen(fen@) == Some(Position { board }),
            None => position_of_fen(fen@).is_none(),
        },
{
    cozy_chess::Board::from_fen(fen, false).ok()
}

/// `cozy_chess::Board::side_to_move`.
#[verifier::external_body]
fn board_side_to_move(p: &Position) -> (r: Color)
    ensures
        r == side_of(*p),
{
    match p.board.side_to_move() {
        cozy_chess::Color::White => Color::White,
        cozy_chess::Color::Black => Color::Black,
    }
}

/// `cozy_chess::Board::status`: won, drawn or ongoing, by the board alone.
/// The outside function calls a game ongoing only where its generator finds
/// a legal move. It generates moves, and panics where the side to move has
/// no king, so only positions with their kings in place are admitted.
#[verifier::external_body]
fn board_status(p: &Position) -> (r: GameStatus)
    requires
        kings_in_place(*p),
    ensures
        r == status_of(*p),
        r == GameStatus::Ongoing ==> moves_of(*p).len() > 0,
{
    match p.board.status() {
        cozy_chess::GameStatus::Won => GameStatus::Won,
        cozy_chess::GameStatus::Drawn => GameStatus::Drawn,
        cozy_chess::GameStatus::Ongoing => GameStatus::Ongoing,
    }
}

/// `cozy_chess::Board::hash`.
#[verifier::external_body]
fn board_hash(p: &Position) -> (r: u64)
    ensures
        r == hash_of(*p),
{
    p.board.hash()
}

/// `cozy_chess::Board::halfmove_clock`.
#[verifier::external_body]
fn board_halfmove_clock(p: &Position) -> (r: u8)
    ensures
        r == clock_of(*p),
{
    p.board.halfmove_clock()
}

/// `cozy_chess::Board::colors`: the bits of the set of squares that `color`
/// occupies.
#[verifier::external_body]
fn board_colors(p: &Position, color: Color) -> (r: u64)
    ensures
        r == occupancy_of(*p, color),
{
    let color = match color {
        Color::White => cozy_chess::Color::White,
        Color::Black => cozy_chess::Color::Black,
    };
    p.board.colors(color).0
}

/// `cozy_chess::Board::colored_pieces`: the bits of the set of squares that
/// hold a `piece` of `color`. The outside crate lets no side have more than
/// sixteen pieces when it reads a board, and no move adds one.
#[verifier::external_body]
fn board_colored_pieces(board: &cozy_chess::Board, color: Color, piece: Piece) -> (r: u64)
    ensures
        r == pieces_of(Position { board: *board }, color, piece),
        count_of(r) <= 16,
{
    let color = match color {
        Color::White => cozy_chess::Color::White,
        Color::Black => cozy_chess::Color::Black,
    };
    board.colored_pieces(color, cozy_chess::Piece::index(piece as usize)).0
}

/// Puts one more batch of moves behind those found so far, and says that
/// the generator is to go on.
fn keep(found: &mut Vec<cozy_chess::PieceMoves>, moves: cozy_chess::PieceMoves) -> (stop: bool)
    ensures
        !stop,
        final(found)@ == old(found)@.push(moves),
{
    found.push(moves);
    false
}

/// `cozy_chess::Board::generate_moves`, and `cozy_chess::PieceMoves`'s
/// `into_iter`, which unpacks what it hands out: every legal move, in the
/// order in which the generator hands them out. Each lies on the board. The
/// generator panics where the side to move has no king, so only positions
/// with their kings in place are admitted.
#[verifier::external_body]
fn board_generate_moves(p: &Position) -> (r: Vec<Move>)
    requires
        kings_in_place(*p),
    ensures
        r@ == moves_of(*p),
        forall|i: int| 0 <= i < r@.len() ==> (#[trigger] r@[i]).on_board(),
{
    let mut found: Vec<cozy_chess::PieceMoves> = Vec::new();
    p.board.generate_moves(|moves| keep(&mut found, moves));
    found.into_iter().flatten().map(|m| Move {
        from: m.from as u8,
        to: m.to as u8,
        promotion: m.promotion.and_then(|k| Piece::from_index(k as usize)),
    }).collect()
}

/// `cozy_chess::Board::play` on a copy of the board: the position after a
/// legal move. The outside function panics on a move that is not legal, so
/// only legal moves are admitted. Where the kings were in place they are so
/// again: a king does not move next to the other king, and a king that is
/// not in check when its side has moved cannot be taken.
#[verifier::external_body]
fn board_play(p: &Position, m: Move) -> (r: Position)
    requires
        kings_in_place(*p),
        moves_of(*p).contains(m),
    ensures
        r == position_after(*p, m),
        kings_in_place(r),
{
    let mut board = p.board.clone();
    board.play(cozy_chess::Move {
        from: cozy_chess::Square::index(m.from as usize),
        to: cozy_chess::Square::index(m.to as usize),
        promotion: m.promotion.map(|k| cozy_chess::Piece::index(k as usize)),
    });
    Position { board }
}

/// `cozy_chess::Move`'s `from_str`: the move that the text denotes, or
/// `None` where it denotes none. A move that comes back lies on the board.
#[verifier::external_body]
fn move_from_str(text: &str) -> (r: Option<Move>)
    ensures
        r == move_of_text(text@),
        r matches Some(m) ==> m.on_board(),
{
    match text.parse::<cozy_chess::Move>() {
        Ok(m) => Some(Move {
            from: m.from as u8,
            to: m.to as u8,
            promotion: m.promotion.and_then(|k| Piece::from_index(k as usize)),
        }),
        Err(_) => None,
    }
}

} // verus!
