//! A chess engine that plays to lose: it searches the game tree for the move
//! that leaves the side to move in the worst position.
//!
//! - [`position`] asks `cozy_chess` for the rules: legal moves, the position
//!   after a move, and how a game stands.
//! - [`bitboard`] and [`predicted_eval`] score a position as it stands.
//! - [`tracker`] counts how often the positions of a line have occurred.
//! - [`minimax`] says what a search is to find, [`pruning`] what the
//!   alpha-beta search returns and why the two agree, and [`engine`] is
//!   that search.
//! - [`session`] deepens a search step by step until it is stopped, and
//!   [`worker`] does so under the eyes of another thread.
//! - [`play`] holds the game between two commands, [`handle_uci_input`] and
//!   [`text`] turn the commands of the protocol into changes of the game.
//! - [`chess`] is a plain board of pieces.

pub mod bitboard;
pub mod chess;
pub mod engine;
pub mod handle_uci_input;
pub mod minimax;
pub mod play;
pub mod position;
pub mod predicted_eval;
pub mod pruning;
pub mod session;
pub mod text;
pub mod tracker;
pub mod worker;
