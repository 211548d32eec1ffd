//! A plain 8x8 board of pieces, row-major from Black's back rank.

use vstd::prelude::*;
use vstd::string::StringExecFns;

verus! {

pub const ROWS: usize = 8;

pub const COLS: usize = 8;

pub const AREA: usize = 64;

#[derive(Debug, Copy, Clone, PartialEq, Eq, Structural)]
pub enum PossibleChessPieces {
    Empty,
    Pawn,
    Knight,
    Bishiop,
    Rook,
    Queen,
    King,
}

#[derive(Debug, Copy, Clone, PartialEq, Eq, Structural)]
pub enum OwnerColor {
    Unowned,
    White,
    Black,
}

#[derive(Debug, Copy, Clone, PartialEq, Eq, Structural)]
pub struct ChessPiece {
    pub piece: PossibleChessPieces,
    pub color: OwnerColor,
    pub has_moved: bool,
}

#[derive(Debug, Copy, Clone)]
pub struct ChessBoard {
    board: [ChessPiece; 64],
}

/// The piece kind on file `col` of either back rank.
pub open spec fn back_rank_piece(col: int) -> PossibleChessPieces {
    if col == 0 || col == 7 {
        PossibleChessPieces::Rook
    } else if col == 1 || col == 6 {
        PossibleChessPieces::Knight
    } else if col == 2 || col == 5 {
        PossibleChessPieces::Bishiop
    } else if col == 3 {
        PossibleChessPieces::Queen
    } else {
        PossibleChessPieces::King
    }
}

/// The square at `index` of the starting layout: Black on rows 0 and 1,
/// White on rows 6 and 7, nothing in between, and nothing has moved.
pub open spec fn initial_square(index: int) -> ChessPiece {
    let row = index / 8;
    let col = index % 8;
    if row == 0 {
        ChessPiece { piece: back_rank_piece(col), color: OwnerColor::Black, has_moved: false }
    } else if row == 1 {
        ChessPiece { piece: PossibleChessPieces::Pawn, color: OwnerColor::Black, has_moved: false }
    } else if row == 6 {
        ChessPiece { piece: PossibleChessPieces::Pawn, color: OwnerColor::White, has_moved: false }
    } else if row == 7 {
        ChessPiece { piece: back_rank_piece(col), color: OwnerColor::White, has_moved: false }
    } else {
        ChessPiece {
            piece: PossibleChessPieces::Empty,
            color: OwnerColor::Unowned,
            has_moved: false,
        }
    }
}

/// The figure that stands for a piece in print: the chess figure of its
/// kind and colour, and a blank for an empty or unowned square.
pub open spec fn symbol_of(piece: ChessPiece) -> Seq<char> {
    match piece.color {
        OwnerColor::White => match piece.piece {
            PossibleChessPieces::Bishiop => "\u{2657}"@,
            PossibleChessPieces::King => "\u{2654}"@,
            PossibleChessPieces::Knight => "\u{2658}"@,
            PossibleChessPieces::Pawn => "\u{2659}"@,
            PossibleChessPieces::Queen => "\u{2655}"@,
            PossibleChessPieces::Rook => "\u{2656}"@,
            PossibleChessPieces::Empty => " "@,
        },
        OwnerColor::Black => match piece.piece {
            PossibleChessPieces::Bishiop => "\u{265D}"@,
            PossibleChessPieces::King => "\u{265A}"@,
            PossibleChessPieces::Knight => "\u{265E}"@,
            PossibleChessPieces::Pawn => "\u{265F}\u{FE0E}"@,
            PossibleChessPieces::Queen => "\u{265B}"@,
            PossibleChessPieces::Rook => "\u{265C}"@,
            PossibleChessPieces::Empty => " "@,
        },
        OwnerColor::Unowned => " "@,
    }
}

/// The first `n` squares in print: the figures one after the other, and a
/// line break after every eighth.
pub open spec fn rendered_below(squares: Seq<ChessPiece>, n: int) -> Seq<char>
    decreases n,
{
    if n <= 0 {
        Seq::empty()
    } else {
        rendered_below(squares, n - 1) + symbol_of(squares[n - 1]) + if n % 8 == 0 {
            "\n"@
        } else {
            Seq::empty()
        }
    }
}

impl ChessPiece {
    /// The figure that stands for the piece in print.
    pub fn symbol(&self) -> (r: &'static str)
        ensures
            r@ == symbol_of(*self),
    {
        match self.color {
            OwnerColor::White => match self.piece {
                PossibleChessPieces::Bishiop => "\u{2657}",
                PossibleChessPieces::King => "\u{2654}",
                PossibleChessPieces::Knight => "\u{2658}",
                PossibleChessPieces::Pawn => "\u{2659}",
                PossibleChessPieces::Queen => "\u{2655}",
                PossibleChessPieces::Rook => "\u{2656}",
                PossibleChessPieces::Empty => " ",
            },
            OwnerColor::Black => match self.piece {
                PossibleChessPieces::Bishiop => "\u{265D}",
                PossibleChessPieces::King => "\u{265A}",
                PossibleChessPieces::Knight => "\u{265E}",
                PossibleChessPieces::Pawn => "\u{265F}\u{FE0E}",
                PossibleChessPieces::Queen => "\u{265B}",
                PossibleChessPieces::Rook => "\u{265C}",
                PossibleChessPieces::Empty => " ",
            },
            OwnerColor::Unowned => " ",
        }
    }
}

impl ChessBoard {
    /// The board in print: eight lines of eight figures, Black's back rank
    /// first.
    pub fn render(&self) -> (r: String)
        ensures
            r@ == rendered_below(self.squares(), AREA as int),
    {
        let mut text = String::new();
        let mut index: usize = 0;
        while index < AREA
            invariant
                index <= AREA,
                text@ == rendered_below(self.squares(), index as int),
            decreases AREA - index,
        {
            text.append(self.board[index].symbol());
            if (index + 1) % COLS == 0 {
                text.append("\n");
            }
            index = index + 1;
        }
        text
    }

    /// The squares of the board, row by row.
    pub closed spec fn squares(&self) -> Seq<ChessPiece> {
        self.board@
    }

    /// Whether a king stands in check. No check detection exists yet, so no
    /// board is ever in check.
    pub open spec fn spec_in_check(&self) -> bool {
        false
    }

    /// Returns true if a king is in check, false otherwise.
    pub fn in_check(&self) -> (r: bool)
        ensures
            r == self.spec_in_check(),
    {
        false
    }

    /// Whether the board, with the moved piece already on its destination,
    /// is a legal position: it is unless a king is in check.
    pub fn check_legality(
        &self,
        start_row: usize,
        start_col: usize,
        end_row: usize,
        end_col: usize,
    ) -> (r: bool)
        ensures
            r == !self.spec_in_check(),
    {
        if self.in_check() {
            return false;
        }
        true
    }

    /// The piece on a square, or `None` where the square is empty.
    pub fn get_piece(&self, row: usize, col: usize) -> (r: Option<&ChessPiece>)
        requires
            row * COLS + col < AREA,
        ensures
            self.squares().len() == AREA,
            self.squares()[row * COLS + col].piece == PossibleChessPieces::Empty ==> r.is_none(),
            self.squares()[row * COLS + col].piece != PossibleChessPieces::Empty ==> r == Some(
                &self.squares()[row * COLS + col],
            ),
    {
        let index = row * COLS + col;
        let full = &self.board[index];
        match full.piece {
            PossibleChessPieces::Empty => None,
            _ => Some(full),
        }
    }

    /// A mutable handle on the piece on a square, or `None` where the square
    /// is empty. What is written through the handle lands on that square and
    /// nowhere else.
    pub fn get_mut_piece(&mut self, row: usize, col: usize) -> (r: Option<&mut ChessPiece>)
        requires
            row * COLS + col < AREA,
        ensures
            old(self).squares().len() == AREA,
            final(self).squares().len() == AREA,
            old(self).squares()[row * COLS + col].piece == PossibleChessPieces::Empty ==> r.is_none()
                && final(self).squares() == old(self).squares(),
            old(self).squares()[row * COLS + col].piece != PossibleChessPieces::Empty ==> r.is_some()
                && *r.unwrap() == old(self).squares()[row * COLS + col]
                && final(self).squares() == old(self).squares().update(
                (row * COLS + col) as int,
                *final(r.unwrap()),
            ),
    {
        let index = row * COLS + col;
        let full = &mut self.board[index];
        match full.piece {
            PossibleChessPieces::Empty => None,
            _ => Some(full),
        }
    }

    /// Moves the piece on the start square onto the end square, whatever
    /// stood there. Where the resulting board is not legal the end square is
    /// put back and `false` is returned. The start square keeps its piece.
    pub fn move_piece(
        &mut self,
        start_row: usize,
        start_col: usize,
        end_row: usize,
        end_col: usize,
    ) -> (r: bool)
        requires
            start_row * COLS + start_col < AREA,
            end_row * COLS + end_col < AREA,
        ensures
            old(self).squares().len() == AREA,
            final(self).squares().len() == AREA,
            r == !old(self).spec_in_check(),
            r ==> final(self).squares() == old(self).squares().update(
                (end_row * COLS + end_col) as int,
                old(self).squares()[start_row * COLS + start_col],
            ),
            !r ==> final(self).squares() == old(self).squares(),
    {
        let start_index = start_row * COLS + start_col;
        let start_piece = self.board[start_index];
        let end_index = end_row * COLS + end_col;
        let end_piece = self.board[end_index];
        self.board[end_index] = start_piece;
        if !self.check_legality(start_row, start_col, end_row, end_col) {
            self.board[end_index] = end_piece;
            return false;
        }
        true
    }

    /// The starting layout of a game.
    pub fn new() -> (r: Self)
        ensures
            r.squares().len() == AREA,
            forall|i: int| 0 <= i < AREA ==> r.squares()[i] == initial_square(i),
    {
        let board = [
            ChessPiece { piece: PossibleChessPieces::Rook, color: OwnerColor::Black, has_moved: false },
            ChessPiece { piece: PossibleChessPieces::Knight, color: OwnerColor::Black, has_moved: false },
            ChessPiece { piece: PossibleChessPieces::Bishiop, color: OwnerColor::Black, has_moved: false },
            ChessPiece { piece: PossibleChessPieces::Queen, color: OwnerColor::Black, has_moved: false },
            ChessPiece { piece: PossibleChessPieces::King, color: OwnerColor::Black, has_moved: false },
            ChessPiece { piece: PossibleChessPieces::Bishiop, color: OwnerColor::Black, has_moved: false },
            ChessPiece { piece: PossibleChessPieces::Knight, color: OwnerColor::Black, has_moved: false },
            ChessPiece { piece: PossibleChessPieces::Rook, color: OwnerColor::Black, has_moved: false },
            ChessPiece { piece: PossibleChessPieces::Pawn, color: OwnerColor::Black, has_moved: false },
            ChessPiece { piece: PossibleChessPieces::Pawn, color: OwnerColor::Black, has_moved: false },
            ChessPiece { piece: PossibleChessPieces::Pawn, color: OwnerColor::Black, has_moved: false },
            ChessPiece { piece: PossibleChessPieces::Pawn, color: OwnerColor::Black, has_moved: false },
            ChessPiece { piece: PossibleChessPieces::Pawn, color: OwnerColor::Black, has_moved: false },
            ChessPiece { piece: PossibleChessPieces::Pawn, color: OwnerColor::Black, has_moved: false },
            ChessPiece { piece: PossibleChessPieces::Pawn, color: OwnerColor::Black, has_moved: false },
            ChessPiece { piece: PossibleChessPieces::Pawn, color: OwnerColor::Black, has_moved: false },
            ChessPiece { piece: PossibleChessPieces::Empty, color: OwnerColor::Unowned, has_moved: false },
            ChessPiece { piece: PossibleChessPieces::Empty, color: OwnerColor::Unowned, has_moved: false },
            ChessPiece { piece: PossibleChessPieces::Empty, color: OwnerColor::Unowned, has_moved: false },
            ChessPiece { piece: PossibleChessPieces::Empty, color: OwnerColor::Unowned, has_moved: false },
            ChessPiece { piece: PossibleChessPieces::Empty, color: OwnerColor::Unowned, has_moved: false },
            ChessPiece { piece: PossibleChessPieces::Empty, color: OwnerColor::Unowned, has_moved: false },
            ChessPiece { piece: PossibleChessPieces::Empty, color: OwnerColor::Unowned, has_moved: false },
            ChessPiece { piece: PossibleChessPieces::Empty, color: OwnerColor::Unowned, has_moved: false },
            ChessPiece { piece: PossibleChessPieces::Empty, color: OwnerColor::Unowned, has_moved: false },
            ChessPiece { piece: PossibleChessPieces::Empty, color: OwnerColor::Unowned, has_moved: false },
            ChessPiece { piece: PossibleChessPieces::Empty, color: OwnerColor::Unowned, has_moved: false },
            ChessPiece { piece: PossibleChessPieces::Empty, color: OwnerColor::Unowned, has_moved: false },
            ChessPiece { piece: PossibleChessPieces::Empty, color: OwnerColor::Unowned, has_moved: false },
            ChessPiece { piece: PossibleChessPieces::Empty, color: OwnerColor::Unowned, has_moved: false },
            ChessPiece { piece: PossibleChessPieces::Empty, color: OwnerColor::Unowned, has_moved: false },
            ChessPiece { piece: PossibleChessPieces::Empty, color: OwnerColor::Unowned, has_moved: false },
            ChessPiece { piece: PossibleChessPieces::Empty, color: OwnerColor::Unowned, has_moved: false },
            ChessPiece { piece: PossibleChessPieces::Empty, color: OwnerColor::Unowned, has_moved: false },
            ChessPiece { piece: PossibleChessPieces::Empty, color: OwnerColor::Unowned, has_moved: false },
            ChessPiece { piece: PossibleChessPieces::Empty, color: OwnerColor::Unowned, has_moved: false },
            ChessPiece { piece: PossibleChessPieces::Empty, color: OwnerColor::Unowned, has_moved: false },
            ChessPiece { piece: PossibleChessPieces::Empty, color: OwnerColor::Unowned, has_moved: false },
            ChessPiece { piece: PossibleChessPieces::Empty, color: OwnerColor::Unowned, has_moved: false },
            ChessPiece { piece: PossibleChessPieces::Empty, color: OwnerColor::Unowned, has_moved: false },
            ChessPiece { piece: PossibleChessPieces::Empty, color: OwnerColor::Unowned, has_moved: false },
            ChessPiece { piece: PossibleChessPieces::Empty, color: OwnerColor::Unowned, has_moved: false },
            ChessPiece { piece: PossibleChessPieces::Empty, color: OwnerColor::Unowned, has_moved: false },
            ChessPiece { piece: PossibleChessPieces::Empty, color: OwnerColor::Unowned, has_moved: false },
            ChessPiece { piece: PossibleChessPieces::Empty, color: OwnerColor::Unowned, has_moved: false },
            ChessPiece { piece: PossibleChessPieces::Empty, color: OwnerColor::Unowned, has_moved: false },
            ChessPiece { piece: PossibleChessPieces::Empty, color: OwnerColor::Unowned, has_moved: false },
            ChessPiece { piece: PossibleChessPieces::Empty, color: OwnerColor::Unowned, has_moved: false },
            ChessPiece { piece: PossibleChessPieces::Pawn, color: OwnerColor::White, has_moved: false },
            ChessPiece { piece: PossibleChessPieces::Pawn, color: OwnerColor::White, has_moved: false },
            ChessPiece { piece: PossibleChessPieces::Pawn, color: OwnerColor::White, has_moved: false },
            ChessPiece { piece: PossibleChessPieces::Pawn, color: OwnerColor::White, has_moved: false },
            ChessPiece { piece: PossibleChessPieces::Pawn, color: OwnerColor::White, has_moved: false },
            ChessPiece { piece: PossibleChessPieces::Pawn, color: OwnerColor::White, has_moved: false },
            ChessPiece { piece: PossibleChessPieces::Pawn, color: OwnerColor::White, has_moved: false },
            ChessPiece { piece: PossibleChessPieces::Pawn, color: OwnerColor::White, has_moved: false },
            ChessPiece { piece: PossibleChessPieces::Rook, color: OwnerColor::White, has_moved: false },
            ChessPiece { piece: PossibleChessPieces::Knight, color: OwnerColor::White, has_moved: false },
            ChessPiece { piece: PossibleChessPieces::Bishiop, color: OwnerColor::White, has_moved: false },
            ChessPiece { piece: PossibleChessPieces::Queen, color: OwnerColor::White, has_moved: false },
            ChessPiece { piece: PossibleChessPieces::King, color: OwnerColor::White, has_moved: false },
            ChessPiece { piece: PossibleChessPieces::Bishiop, color: OwnerColor::White, has_moved: false },
            ChessPiece { piece: PossibleChessPieces::Knight, color: OwnerColor::White, has_moved: false },
            ChessPiece { piece: PossibleChessPieces::Rook, color: OwnerColor::White, has_moved: false },
        ];
        Self { board }
    }
}

} // verus!
