use wheatleybot::chess::{ChessBoard, ChessPiece, OwnerColor, PossibleChessPieces};

#[test]
fn new_board_has_rooks_in_the_corners() {
    let board = ChessBoard::new();
    let top_left = board.get_piece(0, 0).unwrap();
    assert_eq!(top_left.piece, PossibleChessPieces::Rook);
    assert_eq!(top_left.color, OwnerColor::Black);
    let bottom_right = board.get_piece(7, 7).unwrap();
    assert_eq!(bottom_right.piece, PossibleChessPieces::Rook);
    assert_eq!(bottom_right.color, OwnerColor::White);
}

#[test]
fn new_board_back_ranks_and_pawns() {
    let board = ChessBoard::new();
    let back = [
        PossibleChessPieces::Rook,
        PossibleChessPieces::Knight,
        PossibleChessPieces::Bishiop,
        PossibleChessPieces::Queen,
        PossibleChessPieces::King,
        PossibleChessPieces::Bishiop,
        PossibleChessPieces::Knight,
        PossibleChessPieces::Rook,
    ];
    for col in 0..8 {
        let black = board.get_piece(0, col).unwrap();
        assert_eq!(black.piece, back[col]);
        assert_eq!(black.color, OwnerColor::Black);
        assert!(!black.has_moved);
        let black_pawn = board.get_piece(1, col).unwrap();
        assert_eq!(black_pawn.piece, PossibleChessPieces::Pawn);
        assert_eq!(black_pawn.color, OwnerColor::Black);
        let white_pawn = board.get_piece(6, col).unwrap();
        assert_eq!(white_pawn.piece, PossibleChessPieces::Pawn);
        assert_eq!(white_pawn.color, OwnerColor::White);
        let white = board.get_piece(7, col).unwrap();
        assert_eq!(white.piece, back[col]);
        assert_eq!(white.color, OwnerColor::White);
    }
}

#[test]
fn new_board_middle_is_empty() {
    let board = ChessBoard::new();
    for row in 2..6 {
        for col in 0..8 {
            assert!(board.get_piece(row, col).is_none());
        }
    }
}

#[test]
fn get_mut_piece_writes_to_its_square_only() {
    let mut board = ChessBoard::new();
    assert!(board.get_mut_piece(4, 4).is_none());
    {
        let pawn = board.get_mut_piece(6, 3).unwrap();
        assert_eq!(pawn.piece, PossibleChessPieces::Pawn);
        pawn.has_moved = true;
    }
    assert!(board.get_piece(6, 3).unwrap().has_moved);
    assert!(!board.get_piece(6, 2).unwrap().has_moved);
    assert!(!board.get_piece(6, 4).unwrap().has_moved);
}

#[test]
fn move_piece_copies_the_piece_onto_the_end_square() {
    let mut board = ChessBoard::new();
    assert!(board.move_piece(6, 4, 4, 4));
    let moved = board.get_piece(4, 4).unwrap();
    assert_eq!(moved.piece, PossibleChessPieces::Pawn);
    assert_eq!(moved.color, OwnerColor::White);
    assert!(!moved.has_moved);
    let left = board.get_piece(6, 4).unwrap();
    assert_eq!(left.piece, PossibleChessPieces::Pawn);
    assert_eq!(left.color, OwnerColor::White);
}

#[test]
fn move_piece_replaces_what_stood_on_the_end_square() {
    let mut board = ChessBoard::new();
    assert!(board.move_piece(7, 3, 0, 4));
    let queen = board.get_piece(0, 4).unwrap();
    assert_eq!(queen.piece, PossibleChessPieces::Queen);
    assert_eq!(queen.color, OwnerColor::White);
    assert_eq!(board.get_piece(0, 3).unwrap().piece, PossibleChessPieces::Queen);
}

#[test]
fn no_board_is_in_check() {
    let board = ChessBoard::new();
    assert!(!board.in_check());
    assert!(board.check_legality(6, 4, 4, 4));
    assert!(board.check_legality(0, 0, 7, 7));
}

#[test]
fn symbols_of_the_pieces() {
    let piece = |piece, color| ChessPiece { piece, color, has_moved: false };
    assert_eq!(piece(PossibleChessPieces::King, OwnerColor::White).symbol(), "\u{2654}");
    assert_eq!(piece(PossibleChessPieces::Queen, OwnerColor::White).symbol(), "\u{2655}");
    assert_eq!(piece(PossibleChessPieces::Rook, OwnerColor::White).symbol(), "\u{2656}");
    assert_eq!(piece(PossibleChessPieces::Bishiop, OwnerColor::White).symbol(), "\u{2657}");
    assert_eq!(piece(PossibleChessPieces::Knight, OwnerColor::White).symbol(), "\u{2658}");
    assert_eq!(piece(PossibleChessPieces::Pawn, OwnerColor::White).symbol(), "\u{2659}");
    assert_eq!(piece(PossibleChessPieces::King, OwnerColor::Black).symbol(), "\u{265A}");
    assert_eq!(piece(PossibleChessPieces::Queen, OwnerColor::Black).symbol(), "\u{265B}");
    assert_eq!(piece(PossibleChessPieces::Rook, OwnerColor::Black).symbol(), "\u{265C}");
    assert_eq!(piece(PossibleChessPieces::Bishiop, OwnerColor::Black).symbol(), "\u{265D}");
    assert_eq!(piece(PossibleChessPieces::Knight, OwnerColor::Black).symbol(), "\u{265E}");
    assert_eq!(piece(PossibleChessPieces::Pawn, OwnerColor::Black).symbol(), "\u{265F}\u{FE0E}");
    assert_eq!(piece(PossibleChessPieces::Empty, OwnerColor::White).symbol(), " ");
    assert_eq!(piece(PossibleChessPieces::Empty, OwnerColor::Black).symbol(), " ");
    assert_eq!(piece(PossibleChessPieces::King, OwnerColor::Unowned).symbol(), " ");
}

#[test]
fn render_prints_eight_lines() {
    let text = ChessBoard::new().render();
    let lines: Vec<&str> = text.split('\n').collect();
    assert_eq!(lines.len(), 9);
    assert_eq!(lines[0], "\u{265C}\u{265E}\u{265D}\u{265B}\u{265A}\u{265D}\u{265E}\u{265C}");
    assert_eq!(lines[1], "\u{265F}\u{FE0E}".repeat(8));
    assert_eq!(lines[2], "        ");
    assert_eq!(lines[5], "        ");
    assert_eq!(lines[6], "\u{2659}".repeat(8));
    assert_eq!(lines[7], "\u{2656}\u{2658}\u{2657}\u{2655}\u{2654}\u{2657}\u{2658}\u{2656}");
    assert_eq!(lines[8], "");
}
