//! What each command of the protocol does to a game. Reading the commands
//! and printing the answers is left to the caller.

use crate::minimax::{best_outcome, is_fit_to_play, lemma_best_outcome_is_fit_to_play};
use crate::play::{Game, MoveEval, Phase};
use crate::position::{
    hash_of, move_of_text, moves_of, position_after, side_of, start_position, Color, Move,
    Position,
};
use crate::session::{after_search, get_move, lemma_stopped_search_holds_a_move, request_stop};
use crate::text::{number_of_text, parse_number, parse_truth, same_text, truth_of_text};
use crate::tracker::{bumped, DrawTracker};
use vstd::prelude::*;

verus! {

/// Why a command was turned down. The game stays as it was.
#[derive(Clone, Copy, PartialEq, Eq, Debug, Structural)]
pub enum UciError {
    /// A word that the command needs is not there.
    MissingArgument,
    /// `setoption` was not followed by `name`.
    OptionNameMissing,
    /// The option is not one of the engine's.
    UnknownOption,
    /// The value of the option is neither `true` nor `false`.
    InvalidOptionValue,
    /// The position is not given from `startpos`.
    InvalidPosition,
    /// A word in the list of moves denotes no move.
    InvalidMove,
    /// A move in the list is not legal where it is played.
    IllegalMove,
    /// A time is not a number.
    InvalidNumber,
    /// A search is under way already.
    AlreadySearching,
    /// No search is under way.
    NotSearching,
}

impl UciError {
    /// What is said to the other side when a command is turned down.
    pub open spec fn message_text(self) -> Seq<char> {
        match self {
            UciError::MissingArgument => "Invalid command sent, a word is missing"@,
            UciError::OptionNameMissing => "Invalid option sent, name not present"@,
            UciError::UnknownOption => "Invalid option sent, id not reckonised"@,
            UciError::InvalidOptionValue => "Invalid option sent, value is neither true nor false"@,
            UciError::InvalidPosition => "Requires a starting point of startpos"@,
            UciError::InvalidMove => "Invalid move sent, it denotes no move"@,
            UciError::IllegalMove => "Invalid move sent, it is not legal"@,
            UciError::InvalidNumber => "Invalid time sent, it is no number"@,
            UciError::AlreadySearching => "A search is under way already"@,
            UciError::NotSearching => "No search is under way"@,
        }
    }

    /// What is said to the other side when a command is turned down.
    pub fn message(&self) -> (r: &'static str)
        ensures
            r@ == self.message_text(),
    {
        match self {
            UciError::MissingArgument => "Invalid command sent, a word is missing",
            UciError::OptionNameMissing => "Invalid option sent, name not present",
            UciError::UnknownOption => "Invalid option sent, id not reckonised",
            UciError::InvalidOptionValue => "Invalid option sent, value is neither true nor false",
            UciError::InvalidPosition => "Requires a starting point of startpos",
            UciError::InvalidMove => "Invalid move sent, it denotes no move",
            UciError::IllegalMove => "Invalid move sent, it is not legal",
            UciError::InvalidNumber => "Invalid time sent, it is no number",
            UciError::AlreadySearching => "A search is under way already",
            UciError::NotSearching => "No search is under way",
        }
    }
}

/// A game at its start: captures are forced, nothing has been seen, and no
/// search is under way.
pub fn default_game() -> (r: Game)
    ensures
        !r.debug_mode,
        r.forced_capture,
        r.board == start_position(),
        r.previous_boards@ == Map::<u64, i32>::empty(),
        !r.is_searching,
        r.current_best_move.is_none(),
        !r.stop_search,
        !r.move_set,
        r.depth_reached == 0,
        r.phase() == Phase::Idle,
{
    Game {
        debug_mode: false,
        board: Position::startpos(),
        forced_capture: true,
        previous_boards: DrawTracker::new(),
        is_searching: false,
        current_best_move: None,
        stop_search: false,
        move_set: false,
        depth_reached: 0,
    }
}

/// `ucinewgame`: a game at its start.
pub fn uci_new_game() -> (r: Game)
    ensures
        !r.debug_mode,
        r.forced_capture,
        r.board == start_position(),
        r.previous_boards@ == Map::<u64, i32>::empty(),
        !r.is_searching,
        r.current_best_move.is_none(),
        !r.stop_search,
        !r.move_set,
        r.depth_reached == 0,
        r.phase() == Phase::Idle,
{
    default_game()
}

/// `debug`: the game with debug mode switched on.
pub fn debug(game: Game) -> (r: Game)
    ensures
        r == (Game { debug_mode: true, ..game }),
{
    Game { debug_mode: true, ..game }
}

/// `isready`: the game as it is. The caller answers `readyok`.
pub fn is_ready(game: Game) -> (r: Game)
    ensures
        r == game,
{
    game
}

/// `register`: the game as it is.
pub fn register(game: Game) -> (r: Game)
    ensures
        r == game,
{
    game
}

/// `ponderhit`: the game as it is.
pub fn ponderhit(game: Game) -> (r: Game)
    ensures
        r == game,
{
    game
}

/// What `setoption` sets forced capture to: the command must read
/// `setoption name ForcedCapture value` and then `true` or `false`.
pub open spec fn option_value(tokens: Seq<&str>) -> Result<bool, UciError> {
    if tokens.len() <= 1 {
        Err(UciError::MissingArgument)
    } else if tokens[1]@ != "name"@ {
        Err(UciError::OptionNameMissing)
    } else if tokens.len() <= 2 {
        Err(UciError::MissingArgument)
    } else if tokens[2]@ != "ForcedCapture"@ {
        Err(UciError::UnknownOption)
    } else if tokens.len() <= 4 {
        Err(UciError::MissingArgument)
    } else {
        match truth_of_text(tokens[4]@) {
            Some(value) => Ok(value),
            None => Err(UciError::InvalidOptionValue),
        }
    }
}

/// `setoption`: the game with forced capture set as the command says.
pub fn set_option(input_tokens: &Vec<&str>, game: Game) -> (r: Result<Game, UciError>)
    ensures
        r == match option_value(input_tokens@) {
            Ok(value) => Ok(Game { forced_capture: value, ..game }),
            Err(error) => Err(error),
        },
{
    if input_tokens.len() <= 1 {
        return Err(UciError::MissingArgument);
    }
    if !same_text(input_tokens[1], "name") {
        return Err(UciError::OptionNameMissing);
    }
    if input_tokens.len() <= 2 {
        return Err(UciError::MissingArgument);
    }
    if !same_text(input_tokens[2], "ForcedCapture") {
        return Err(UciError::UnknownOption);
    }
    if input_tokens.len() <= 4 {
        return Err(UciError::MissingArgument);
    }
    match parse_truth(input_tokens[4]) {
        Some(forced_capture) => Ok(Game { forced_capture, ..game }),
        None => Err(UciError::InvalidOptionValue),
    }
}

/// The position and the visit counts after the moves that the words from
/// place `i` on denote, played one after the other from `p`. The first
/// word that denotes no move, or a move that is not legal where it is
/// played, turns the whole list down.
pub open spec fn replayed(
    p: Position,
    counts: Map<u64, i32>,
    tokens: Seq<&str>,
    i: int,
) -> Result<(Position, Map<u64, i32>), UciError>
    decreases tokens.len() - i,
{
    if i >= tokens.len() {
        Ok((p, counts))
    } else {
        match move_of_text(tokens[i]@) {
            None => Err(UciError::InvalidMove),
            Some(m) => if moves_of(p).contains(m) {
                replayed(
                    position_after(p, m),
                    bumped(counts, hash_of(position_after(p, m))),
                    tokens,
                    i + 1,
                )
            } else {
                Err(UciError::IllegalMove)
            },
        }
    }
}

/// What `position` sets up: the command must read `position startpos`, and
/// after one more word the moves that were played. The start position
/// counts as seen once.
pub open spec fn position_reached(tokens: Seq<&str>) -> Result<
    (Position, Map<u64, i32>),
    UciError,
> {
    if tokens.len() <= 1 {
        Err(UciError::MissingArgument)
    } else if tokens[1]@ != "startpos"@ {
        Err(UciError::InvalidPosition)
    } else {
        replayed(
            start_position(),
            bumped(Map::<u64, i32>::empty(), hash_of(start_position())),
            tokens,
            3,
        )
    }
}

/// Whether `after` is `before` with another board and other visit counts.
pub open spec fn set_up(before: Game, after: Game, board: Position, counts: Map<u64, i32>) -> bool {
    &&& after.board == board
    &&& after.previous_boards@ == counts
    &&& after.debug_mode == before.debug_mode
    &&& after.forced_capture == before.forced_capture
    &&& after.is_searching == before.is_searching
    &&& after.current_best_move == before.current_best_move
    &&& after.stop_search == before.stop_search
    &&& after.move_set == before.move_set
    &&& after.depth_reached == before.depth_reached
}

/// `position`: the game on the board that the moves of the command lead to
/// from the start, with every position on the way counted.
pub fn position(input_tokens: &Vec<&str>, game: Game) -> (r: Result<Game, UciError>)
    ensures
        match position_reached(input_tokens@) {
            Ok((board, counts)) => r matches Ok(after) && set_up(game, after, board, counts),
            Err(error) => r == Err::<Game, UciError>(error),
        },
{
    if input_tokens.len() <= 1 {
        return Err(UciError::MissingArgument);
    }
    if !same_text(input_tokens[1], "startpos") {
        return Err(UciError::InvalidPosition);
    }
    let mut board = Position::startpos();
    let mut previous_boards = DrawTracker::new().with_move_applied(board.hash());
    let mut i: usize = 3;
    while i < input_tokens.len()
        invariant
            3 <= i,
            input_tokens.len() > 1,
            input_tokens@[1]@ == "startpos"@,
            position_reached(input_tokens@) == replayed(
                board,
                previous_boards@,
                input_tokens@,
                i as int,
            ),
        decreases input_tokens.len() - i,
    {
        let played_move = match Move::parse(input_tokens[i]) {
            Some(m) => m,
            None => {
                return Err(UciError::InvalidMove);
            },
        };
        board = match board.try_play(played_move) {
            Some(next) => next,
            None => {
                return Err(UciError::IllegalMove);
            },
        };
        previous_boards = previous_boards.with_move_applied(board.hash());
        i = i + 1;
    }
    Ok(Game { board, previous_boards, ..game })
}

/// How long a search may take.
#[derive(Clone, Copy, PartialEq, Eq, Debug, Structural)]
pub enum TimeBudget {
    /// Until it is told to stop.
    Infinite,
    /// So many milliseconds.
    Millis(u64),
}

/// What the words of a `go` command say about time.
#[derive(Clone, Copy, PartialEq, Eq, Debug, Structural)]
pub struct GoArguments {
    /// White's time on the clock, in milliseconds.
    pub white_time: Option<u64>,
    /// Black's time on the clock, in milliseconds.
    pub black_time: Option<u64>,
    /// Whether to search until told to stop.
    pub infinite: bool,
    /// The time for this move, in milliseconds.
    pub move_time: Option<u64>,
}

/// The time on the clock that is assumed where the command gives none.
pub const DEFAULT_CLOCK_MILLIS: u64 = 10;

/// The part of the time on the clock that one move may take is one in so
/// many.
pub const CLOCK_DIVISOR: u64 = 50;

/// The number that follows the word at place `i`.
pub open spec fn number_after(tokens: Seq<&str>, i: int) -> Result<u64, UciError> {
    if i + 1 >= tokens.len() {
        Err(UciError::MissingArgument)
    } else {
        match number_of_text(tokens[i + 1]@) {
            Some(value) => Ok(value),
            None => Err(UciError::InvalidNumber),
        }
    }
}

/// What the words from place `i` on add to `so_far`: `wtime`, `btime` and
/// `movetime` are each followed by a number, `infinite` stands alone, and
/// every other word says nothing. A later word overrides an earlier one.
pub open spec fn arguments_from(tokens: Seq<&str>, i: int, so_far: GoArguments) -> Result<
    GoArguments,
    UciError,
>
    decreases tokens.len() - i,
{
    if i >= tokens.len() {
        Ok(so_far)
    } else if tokens[i]@ == "wtime"@ {
        match number_after(tokens, i) {
            Ok(value) => arguments_from(
                tokens,
                i + 1,
                GoArguments { white_time: Some(value), ..so_far },
            ),
            Err(error) => Err(error),
        }
    } else if tokens[i]@ == "btime"@ {
        match number_after(tokens, i) {
            Ok(value) => arguments_from(
                tokens,
                i + 1,
                GoArguments { black_time: Some(value), ..so_far },
            ),
            Err(error) => Err(error),
        }
    } else if tokens[i]@ == "infinite"@ {
        arguments_from(tokens, i + 1, GoArguments { infinite: true, ..so_far })
    } else if tokens[i]@ == "movetime"@ {
        match number_after(tokens, i) {
            Ok(value) => arguments_from(
                tokens,
                i + 1,
                GoArguments { move_time: Some(value), ..so_far },
            ),
            Err(error) => Err(error),
        }
    } else {
        arguments_from(tokens, i + 1, so_far)
    }
}

/// A `go` command that says nothing about time.
pub open spec fn no_arguments() -> GoArguments {
    GoArguments { white_time: None, black_time: None, infinite: false, move_time: None }
}

/// The time that a search may take: none at all is set where the command
/// says `infinite`; else the time for the move where the command gives it;
/// else a fixed part of the mover's time on the clock.
pub open spec fn budget_of(arguments: GoArguments, mover: Color) -> TimeBudget {
    if arguments.infinite {
        TimeBudget::Infinite
    } else {
        match arguments.move_time {
            Some(millis) => TimeBudget::Millis(millis),
            None => {
                let clock = match mover {
                    Color::White => arguments.white_time,
                    Color::Black => arguments.black_time,
                };
                match clock {
                    Some(millis) => TimeBudget::Millis(millis / CLOCK_DIVISOR),
                    None => TimeBudget::Millis(DEFAULT_CLOCK_MILLIS / CLOCK_DIVISOR),
                }
            },
        }
    }
}

/// The time that the words of a `go` command allow the side to move.
pub open spec fn time_allowed(tokens: Seq<&str>, mover: Color) -> Result<TimeBudget, UciError> {
    match arguments_from(tokens, 0, no_arguments()) {
        Ok(arguments) => Ok(budget_of(arguments, mover)),
        Err(error) => Err(error),
    }
}

/// The number that follows the word at place `i`.
fn read_number_after(input_tokens: &Vec<&str>, i: usize) -> (r: Result<u64, UciError>)
    requires
        i < input_tokens.len(),
    ensures
        r == number_after(input_tokens@, i as int),
{
    if i + 1 >= input_tokens.len() {
        return Err(UciError::MissingArgument);
    }
    match parse_number(input_tokens[i + 1]) {
        Some(value) => Ok(value),
        None => Err(UciError::InvalidNumber),
    }
}

/// The time that the words of a `go` command allow the side to move.
pub fn time_budget(input_tokens: &Vec<&str>, mover: Color) -> (r: Result<TimeBudget, UciError>)
    ensures
        r == time_allowed(input_tokens@, mover),
{
    let mut arguments = GoArguments {
        white_time: None,
        black_time: None,
        infinite: false,
        move_time: None,
    };
    let mut i: usize = 0;
    while i < input_tokens.len()
        invariant
            i <= input_tokens.len(),
            arguments_from(input_tokens@, 0, no_arguments()) == arguments_from(
                input_tokens@,
                i as int,
                arguments,
            ),
        decreases input_tokens.len() - i,
    {
        let word = input_tokens[i];
        if same_text(word, "wtime") {
            match read_number_after(input_tokens, i) {
                Ok(value) => {
                    arguments = GoArguments { white_time: Some(value), ..arguments };
                },
                Err(error) => {
                    return Err(error);
                },
            }
        } else if same_text(word, "btime") {
            match read_number_after(input_tokens, i) {
                Ok(value) => {
                    arguments = GoArguments { black_time: Some(value), ..arguments };
                },
                Err(error) => {
                    return Err(error);
                },
            }
        } else if same_text(word, "infinite") {
            arguments = GoArguments { infinite: true, ..arguments };
        } else if same_text(word, "movetime") {
            match read_number_after(input_tokens, i) {
                Ok(value) => {
                    arguments = GoArguments { move_time: Some(value), ..arguments };
                },
                Err(error) => {
                    return Err(error);
                },
            }
        }
        i = i + 1;
    }
    if arguments.infinite {
        return Ok(TimeBudget::Infinite);
    }
    if let Some(millis) = arguments.move_time {
        return Ok(TimeBudget::Millis(millis));
    }
    let clock = match mover {
        Color::White => arguments.white_time,
        Color::Black => arguments.black_time,
    };
    match clock {
        Some(millis) => Ok(TimeBudget::Millis(millis / CLOCK_DIVISOR)),
        None => Ok(TimeBudget::Millis(DEFAULT_CLOCK_MILLIS / CLOCK_DIVISOR)),
    }
}

/// The game with a search begun: nothing searched, nothing held, not told
/// to stop.
pub open spec fn search_begun(game: Game) -> Game {
    Game {
        is_searching: true,
        current_best_move: None,
        stop_search: false,
        move_set: false,
        depth_reached: 0,
        ..game
    }
}

/// `go`: begins a search and says how long it may take. The command is
/// turned down while a search is under way, and where its words about time
/// cannot be read.
pub fn go(input_tokens: &Vec<&str>, game: Game) -> (r: Result<(Game, TimeBudget), UciError>)
    ensures
        r == if game.is_searching {
            Err(UciError::AlreadySearching)
        } else {
            match time_allowed(input_tokens@, side_of(game.board)) {
                Ok(budget) => Ok((search_begun(game), budget)),
                Err(error) => Err(error),
            }
        },
        r matches Ok((begun, _)) ==> game.phase() == Phase::Idle && begun.phase()
            == Phase::Searching,
{
    if game.is_searching {
        return Err(UciError::AlreadySearching);
    }
    let budget = match time_budget(input_tokens, game.board.side_to_move()) {
        Ok(budget) => budget,
        Err(error) => {
            return Err(error);
        },
    };
    Ok(
        (
            Game {
                is_searching: true,
                current_best_move: None,
                stop_search: false,
                move_set: false,
                depth_reached: 0,
                ..game
            },
            budget,
        ),
    )
}

/// The game with no search under way and nothing held.
pub open spec fn search_cleared(game: Game) -> Game {
    Game { is_searching: false, current_best_move: None, stop_search: false, move_set: false, ..game }
}

/// `stop`: tells the search to stop, lets it end, and takes its move. The
/// search completes its first depth even where it had not yet, so the move
/// is there wherever the position has a legal move; it is handed out once,
/// and the game goes back to idle. The command is turned down where no
/// search is under way.
pub fn stop(game: Game) -> (r: Result<(Game, Option<MoveEval>), UciError>)
    ensures
        r == if game.is_searching {
            let ended = after_search(Game { stop_search: true, ..game });
            Ok((search_cleared(ended), ended.current_best_move))
        } else {
            Err(UciError::NotSearching)
        },
        r matches Ok((idle, _)) ==> idle.phase() == Phase::Idle,
        game.is_searching && !game.move_set && game.depth_reached == 0 ==> (r matches Ok(
            (_, outcome),
        ) && outcome == best_outcome(game.board, 1, game.previous_boards@, game.forced_capture)
            && is_fit_to_play(game.board, game.forced_capture, outcome)),
{
    if !game.is_searching {
        return Err(UciError::NotSearching);
    }
    proof {
        if !game.move_set && game.depth_reached == 0 {
            lemma_stopped_search_holds_a_move(Game { stop_search: true, ..game });
            lemma_best_outcome_is_fit_to_play(
                game.board,
                1,
                game.previous_boards@,
                game.forced_capture,
            );
        }
    }
    let ended = get_move(request_stop(game));
    let outcome = ended.current_best_move;
    Ok(
        (
            Game {
                is_searching: false,
                current_best_move: None,
                stop_search: false,
                move_set: false,
                ..ended
            },
            outcome,
        ),
    )
}

} // verus!
