use wheatleybot::engine::best_move;
use std::sync::atomic::{AtomicBool, Ordering};
use std::sync::Mutex;
use wheatleybot::handle_uci_input::{default_game, go, position, stop, TimeBudget, UciError};
use wheatleybot::play::{Game, Phase};
use wheatleybot::position::Position;
use wheatleybot::session::{get_move, request_stop, search_step, PLY_CAP};
use wheatleybot::tracker::DrawTracker;
use wheatleybot::worker::run_search;

const ENDGAME: &str = "4k3/8/8/3p4/4P3/8/8/4K3 w - - 0 1";
const STALEMATE: &str = "7k/5Q2/6K1/8/8/8/8/8 b - - 0 1";

fn game_on(fen: &str, forced_capture: bool) -> Game {
    Game { board: Position::from_fen(fen).unwrap(), forced_capture, ..default_game() }
}

fn begun(fen: &str, forced_capture: bool) -> Game {
    go(&vec!["go", "infinite"], game_on(fen, forced_capture)).unwrap().0
}

#[test]
fn go_begins_a_search() {
    let (game, budget) = go(&vec!["go", "infinite"], default_game()).unwrap();
    assert_eq!(budget, TimeBudget::Infinite);
    assert!(game.is_searching);
    assert!(!game.stop_search);
    assert!(!game.move_set);
    assert_eq!(game.current_best_move, None);
    assert_eq!(game.depth_reached, 0);
}

#[test]
fn stop_right_after_go_still_returns_a_move() {
    let game = go(&vec!["go", "infinite"], default_game()).unwrap().0;
    let start = Position::startpos();
    let expected = best_move(&start, 1, &DrawTracker::new(), true);
    assert!(expected.is_some());
    let (after, outcome) = stop(game).unwrap();
    assert_eq!(outcome, expected);
    assert!(start.is_legal(outcome.unwrap().best_move));
    assert!(!after.is_searching);
    assert!(!after.stop_search);
    assert!(!after.move_set);
    assert_eq!(after.current_best_move, None);
}

#[test]
fn the_move_is_handed_out_once() {
    let game = begun(ENDGAME, false);
    let (after, outcome) = stop(game).unwrap();
    assert!(outcome.is_some());
    assert_eq!(stop(after).unwrap_err(), UciError::NotSearching);
}

#[test]
fn a_new_search_can_begin_after_a_stop() {
    let (after, _) = stop(begun(ENDGAME, false)).unwrap();
    let (again, _) = go(&vec!["go"], after).unwrap();
    assert!(again.is_searching);
    assert_eq!(again.depth_reached, 0);
    assert_eq!(again.current_best_move, None);
}

#[test]
fn each_step_holds_the_move_of_its_depth() {
    let board = Position::from_fen(ENDGAME).unwrap();
    let tracker = DrawTracker::new();
    let mut game = begun(ENDGAME, false);
    for depth in 1..=PLY_CAP {
        game = search_step(game);
        assert_eq!(game.depth_reached, depth);
        assert!(!game.move_set);
        assert_eq!(game.current_best_move, best_move(&board, depth, &tracker, false));
    }
    game = search_step(game);
    assert!(game.move_set);
    assert_eq!(game.depth_reached, PLY_CAP);
    assert_eq!(game.current_best_move, best_move(&board, PLY_CAP, &tracker, false));
    let ended = game.clone();
    game = search_step(game);
    assert_eq!(game.depth_reached, ended.depth_reached);
    assert_eq!(game.current_best_move, ended.current_best_move);
    assert!(game.move_set);
}

#[test]
fn a_search_that_is_not_stopped_runs_to_the_cap() {
    let board = Position::from_fen(ENDGAME).unwrap();
    let ended = get_move(begun(ENDGAME, true));
    assert!(ended.move_set);
    assert!(ended.is_searching);
    assert_eq!(ended.depth_reached, 4);
    assert_eq!(ended.current_best_move, best_move(&board, 4, &DrawTracker::new(), true));
}

#[test]
fn a_stop_is_seen_between_two_depths_only() {
    let board = Position::from_fen(ENDGAME).unwrap();
    let tracker = DrawTracker::new();
    let mut game = search_step(search_step(begun(ENDGAME, false)));
    assert_eq!(game.depth_reached, 2);
    game = request_stop(game);
    assert!(game.stop_search);
    assert!(!game.move_set);
    game = search_step(game);
    assert!(game.move_set);
    assert_eq!(game.depth_reached, 2);
    assert_eq!(game.current_best_move, best_move(&board, 2, &tracker, false));
}

#[test]
fn a_stopped_search_completes_its_first_depth() {
    let board = Position::from_fen(ENDGAME).unwrap();
    let ended = get_move(request_stop(begun(ENDGAME, false)));
    assert!(ended.move_set);
    assert_eq!(ended.depth_reached, 1);
    assert_eq!(ended.current_best_move, best_move(&board, 1, &DrawTracker::new(), false));
}

#[test]
fn an_idle_game_does_not_search() {
    let game = default_game();
    let after = get_move(search_step(game));
    assert!(!after.is_searching);
    assert!(!after.move_set);
    assert_eq!(after.depth_reached, 0);
    assert_eq!(after.current_best_move, None);
}

#[test]
fn a_finished_game_has_no_move_to_hand_out() {
    let (after, outcome) = stop(begun(STALEMATE, true)).unwrap();
    assert_eq!(outcome, None);
    assert!(!after.is_searching);
}

#[test]
fn the_search_sees_the_history_of_the_game() {
    let moves = [
        "g1f3", "g8f6", "f3g1", "f6g8", "g1f3", "g8f6", "f3g1", "f6g8",
    ];
    let mut tokens = vec!["position", "startpos", "moves"];
    tokens.extend(moves);
    let game = position(&tokens, default_game()).unwrap();
    assert!(game.previous_boards.is_repetition());
    assert_eq!(game.previous_boards.count(Position::startpos().hash()), 3);
    let (_, outcome) = stop(go(&vec!["go"], game).unwrap().0).unwrap();
    assert_eq!(outcome.unwrap().evaluation, 0);
}

#[test]
fn phases_of_a_search() {
    let idle = default_game();
    assert_eq!(idle.current_phase(), Phase::Idle);
    assert_eq!(request_stop(default_game()).current_phase(), Phase::Idle);
    let searching = go(&vec!["go"], idle).unwrap().0;
    assert_eq!(searching.current_phase(), Phase::Searching);
    let stopping = request_stop(searching);
    assert_eq!(stopping.current_phase(), Phase::Stopping);
    let (after, _) = stop(stopping).unwrap();
    assert_eq!(after.current_phase(), Phase::Idle);
}

#[test]
fn a_watched_search_that_is_stopped_at_once_shows_its_first_move() {
    let board = Position::from_fen(ENDGAME).unwrap();
    let stop_search = AtomicBool::new(true);
    let move_set = AtomicBool::new(false);
    let current_best_move = Mutex::new(None);
    let ended = run_search(begun(ENDGAME, false), &stop_search, &move_set, &current_best_move);
    let expected = best_move(&board, 1, &DrawTracker::new(), false);
    assert!(expected.is_some());
    assert!(move_set.load(Ordering::SeqCst));
    assert_eq!(*current_best_move.lock().unwrap(), expected);
    assert_eq!(ended.current_best_move, expected);
    assert_eq!(ended.depth_reached, 1);
    assert!(ended.move_set);
    assert!(ended.stop_search);
}

#[test]
fn a_watched_search_that_is_not_stopped_runs_to_the_cap() {
    let board = Position::from_fen(ENDGAME).unwrap();
    let stop_search = AtomicBool::new(false);
    let move_set = AtomicBool::new(false);
    let current_best_move = Mutex::new(None);
    let ended = run_search(begun(ENDGAME, true), &stop_search, &move_set, &current_best_move);
    let expected = best_move(&board, PLY_CAP, &DrawTracker::new(), true);
    assert!(move_set.load(Ordering::SeqCst));
    assert_eq!(*current_best_move.lock().unwrap(), expected);
    assert_eq!(ended.current_best_move, expected);
    assert_eq!(ended.depth_reached, PLY_CAP);
    assert!(!stop_search.load(Ordering::SeqCst));
}

#[test]
fn a_watched_game_that_is_idle_shows_nothing() {
    let stop_search = AtomicBool::new(false);
    let move_set = AtomicBool::new(false);
    let current_best_move = Mutex::new(None);
    let after = run_search(default_game(), &stop_search, &move_set, &current_best_move);
    assert!(!after.is_searching);
    assert!(!move_set.load(Ordering::SeqCst));
    assert_eq!(*current_best_move.lock().unwrap(), None);
}
