use wheatleybot::bitboard::{contains_square, count_squares, first_square, kings_stand_apart};
use wheatleybot::position::{Color, Piece, Position};
use wheatleybot::predicted_eval::{
    get_bishiop_piece_square_evaluation, get_king_piece_square_evaluation,
    get_knight_piece_square_evaluation, get_material_evaluation,
    get_pawn_piece_square_evaluation, get_piece_square_evaluation,
    get_queen_piece_square_evaluation, get_rook_piece_square_evaluation, get_truncated_eval,
    index_to_row_and_col, score_squares, table_entry,
};

fn position(fen: &str) -> Position {
    Position::from_fen(fen).unwrap()
}

#[test]
fn test_piece_square_evaluation_default() {
    assert_eq!(get_piece_square_evaluation(&Position::startpos()), 0);
}

#[test]
fn test_pawn_piece_square_evaluation() {
    let board1 = Position::from_fen("3k4/8/8/8/8/5P2/8/3K4 w - - 0 1").unwrap();
    assert_eq!(
        get_pawn_piece_square_evaluation(&board1),
        -10,
        "failed test 1"
    );
    let board2 = Position::from_fen("3k4/8/8/8/8/2P5/8/3K4 w - - 0 1").unwrap();
    assert_eq!(
        get_pawn_piece_square_evaluation(&board2),
        -10,
        "failed test 2"
    );
    let board3 = Position::from_fen("3k4/8/1P6/8/8/8/8/3K4 w - - 0 1").unwrap();
    assert_eq!(
        get_pawn_piece_square_evaluation(&board3),
        10,
        "failed test 3"
    );
    let board4 = Position::from_fen("3k4/8/2p5/8/8/8/8/3K4 w - - 0 1").unwrap();
    assert_eq!(
        get_pawn_piece_square_evaluation(&board4),
        10,
        "failed test 4"
    );
}

#[test]
fn start_position_evaluates_to_zero() {
    let start = Position::startpos();
    assert_eq!(get_material_evaluation(&start), 0);
    assert_eq!(get_piece_square_evaluation(&start), 0);
    assert_eq!(get_truncated_eval(&start), 0);
}

#[test]
fn an_extra_pawn_is_worth_a_hundred() {
    let board = position("rnbqkbnr/ppppppp1/8/8/8/8/PPPPPPPP/RNBQKBNR w KQkq - 0 1");
    assert_eq!(get_material_evaluation(&board), 100);
    let other = position("rnbqkbnr/pppppppp/8/8/8/8/PPPP1PPP/RNBQKBNR w KQkq - 0 1");
    assert_eq!(get_material_evaluation(&other), -100);
}

#[test]
fn material_weights() {
    assert_eq!(get_material_evaluation(&position("4k3/8/8/8/8/8/8/N3K3 w - - 0 1")), 300);
    assert_eq!(get_material_evaluation(&position("4k3/8/8/8/8/8/8/B3K3 w - - 0 1")), 300);
    assert_eq!(get_material_evaluation(&position("4k3/8/8/8/8/8/8/R3K3 w - - 0 1")), 500);
    assert_eq!(get_material_evaluation(&position("4k3/8/8/8/8/8/8/Q3K3 w - - 0 1")), 900);
    assert_eq!(get_material_evaluation(&position("q3k3/8/8/8/8/8/8/4K3 w - - 0 1")), -900);
    assert_eq!(get_material_evaluation(&position("r3k3/8/8/8/8/8/8/4K3 w - - 0 1")), -500);
    assert_eq!(get_material_evaluation(&position("4k3/8/8/8/8/8/8/4K3 w - - 0 1")), 0);
    assert_eq!(
        get_material_evaluation(&position("rn2k3/8/8/8/8/8/PP6/QB2K3 w - - 0 1")),
        (1 + 1 + 9 + 3 - 5 - 3) * 100
    );
}

#[test]
fn each_kind_reads_its_own_table() {
    let queens = position("4k3/8/8/8/q7/8/8/Q3K3 w - - 0 1");
    // White queen on a1 reads the last row, last column: -20.
    // Black queen on a4 reads row 3, column 0, against White: -(-5).
    assert_eq!(get_queen_piece_square_evaluation(&queens), -20 + 5);
    assert_eq!(get_rook_piece_square_evaluation(&queens), 0);
    let kings = position("4k3/8/8/8/8/8/8/6K1 w - - 0 1");
    // White king on g1 reads row 7, column 1: 30. Black king on e8 reads
    // row 7, column 4: 0.
    assert_eq!(get_king_piece_square_evaluation(&kings), 30);
    let rooks = position("4k3/R7/8/8/8/8/r7/4K3 w - - 0 1");
    // White rook on a7 reads row 1, column 7: 5. Black rook on a2 reads
    // row 1, column 0: 5, against White.
    assert_eq!(get_rook_piece_square_evaluation(&rooks), 0);
    let knights = position("4k3/8/8/8/3N4/8/8/n3K3 w - - 0 1");
    // White knight on d4 reads row 4, column 4: 20. Black knight on a1
    // reads row 0, column 0: -50, against White.
    assert_eq!(get_knight_piece_square_evaluation(&knights), 20 + 50);
    let bishops = position("4k3/8/8/8/8/2B5/8/4K3 w - - 0 1");
    // White bishop on c3 reads row 5, column 5: 10.
    assert_eq!(get_bishiop_piece_square_evaluation(&bishops), 10);
    let black_bishop = position("4k3/8/2b5/8/8/8/8/4K3 w - - 0 1");
    // Black bishop on c6 reads row 5, column 2: 10, against White.
    assert_eq!(get_bishiop_piece_square_evaluation(&black_bishop), -10);
}

#[test]
fn truncated_eval_adds_material_and_position() {
    let board = position("3k4/8/1P6/8/8/8/8/3K4 w - - 0 1");
    assert_eq!(get_material_evaluation(&board), 100);
    assert_eq!(
        get_truncated_eval(&board),
        get_material_evaluation(&board) + get_piece_square_evaluation(&board)
    );
    // The pawn on b6 reads 10; the kings on d1 and d8 read 0 each.
    assert_eq!(get_truncated_eval(&board), 110);
}

#[test]
fn score_of_plain_bit_sets() {
    assert_eq!(score_squares(Piece::Pawn, Color::White, 0), 0);
    assert_eq!(score_squares(Piece::Pawn, Color::White, 1 << 21), -10);
    assert_eq!(score_squares(Piece::Pawn, Color::White, 1 << 41), 10);
    assert_eq!(score_squares(Piece::Pawn, Color::Black, 1 << 42), 10);
    assert_eq!(score_squares(Piece::Pawn, Color::White, 0xFF00), 5 + 10 + 10 - 20 - 20 + 10 + 10 + 5);
    assert_eq!(score_squares(Piece::Pawn, Color::Black, 0xFF00 << 40), -10);
    assert_eq!(score_squares(Piece::King, Color::White, u64::MAX), -1460);
}

#[test]
fn table_entries() {
    assert_eq!(table_entry(Piece::Pawn, 1, 0), 50);
    assert_eq!(table_entry(Piece::Pawn, 6, 3), -20);
    assert_eq!(table_entry(Piece::Knight, 0, 0), -50);
    assert_eq!(table_entry(Piece::Knight, 3, 3), 20);
    assert_eq!(table_entry(Piece::Bishop, 5, 1), 10);
    assert_eq!(table_entry(Piece::Rook, 1, 1), 10);
    assert_eq!(table_entry(Piece::Queen, 4, 0), 0);
    assert_eq!(table_entry(Piece::Queen, 4, 7), -5);
    assert_eq!(table_entry(Piece::King, 7, 1), 30);
    assert_eq!(table_entry(Piece::King, 0, 3), -50);
}

#[test]
fn rows_and_columns_of_squares() {
    let a1 = index_to_row_and_col(0);
    assert_eq!((a1.row, a1.col), (7, 7));
    let h1 = index_to_row_and_col(7);
    assert_eq!((h1.row, h1.col), (7, 0));
    let a8 = index_to_row_and_col(56);
    assert_eq!((a8.row, a8.col), (0, 7));
    let h8 = index_to_row_and_col(63);
    assert_eq!((h8.row, h8.col), (0, 0));
    let f3 = index_to_row_and_col(21);
    assert_eq!((f3.row, f3.col), (5, 2));
}

#[test]
fn counting_squares() {
    assert_eq!(count_squares(0), 0);
    assert_eq!(count_squares(1), 1);
    assert_eq!(count_squares(0xFF00), 8);
    assert_eq!(count_squares(1 << 63), 1);
    assert_eq!(count_squares(u64::MAX), 64);
    assert!(contains_square(1 << 63, 63));
    assert!(!contains_square(1 << 63, 62));
    assert!(contains_square(0b101, 0));
    assert!(!contains_square(0b101, 1));
    assert!(contains_square(0b101, 2));
}

#[test]
fn lowest_square_of_a_set() {
    assert_eq!(first_square(0), 64);
    assert_eq!(first_square(1), 0);
    assert_eq!(first_square(0b1100), 2);
    assert_eq!(first_square(1 << 63), 63);
    assert_eq!(first_square(u64::MAX), 0);
}

#[test]
fn places_of_two_kings() {
    let e1 = 1u64 << 4;
    let e8 = 1u64 << 60;
    assert!(kings_stand_apart(e1, e8));
    assert!(kings_stand_apart(e8, e1));
    // One square between them, along a rank, a file and a diagonal.
    assert!(kings_stand_apart(1 << 0, 1 << 2));
    assert!(kings_stand_apart(1 << 0, 1 << 16));
    assert!(kings_stand_apart(1 << 0, 1 << 18));
    // The end of one rank and the start of the next do not touch.
    assert!(kings_stand_apart(1 << 7, 1 << 8));
    // Squares that touch.
    assert!(!kings_stand_apart(1 << 0, 1 << 1));
    assert!(!kings_stand_apart(1 << 0, 1 << 8));
    assert!(!kings_stand_apart(1 << 0, 1 << 9));
    assert!(!kings_stand_apart(1 << 27, 1 << 36));
    assert!(!kings_stand_apart(1 << 36, 1 << 27));
    assert!(!kings_stand_apart(1 << 27, 1 << 27));
    // A king is missing, or there is one too many.
    assert!(!kings_stand_apart(0, e8));
    assert!(!kings_stand_apart(e1, 0));
    assert!(!kings_stand_apart(e1 | 1, e8));
    assert!(!kings_stand_apart(e1, e8 | 1 << 62));
}

#[test]
fn the_static_score_stays_far_from_a_checkmate() {
    for fen in [
        "4k3/8/8/8/8/8/QQQQQQQQ/QQQQKQQQ b - - 0 1",
        "qqqqkqqq/qqqqqqqq/8/8/8/8/8/4K3 w - - 0 1",
        "rnbqkbnr/pppppppp/8/8/8/8/PPPPPPPP/RNBQKBNR w KQkq - 0 1",
    ] {
        let score = get_truncated_eval(&position(fen));
        assert!(-64_000 <= score && score <= 64_000);
    }
    assert_eq!(
        get_material_evaluation(&position("4k3/8/8/8/8/8/QQQQQQQQ/QQQQKQQQ b - - 0 1")),
        15 * 900
    );
}
