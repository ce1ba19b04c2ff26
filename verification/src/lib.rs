//! The rules of a two-player tic-tac-toe game on a 3x3 board, with their
//! contracts and laws: the board and its winning lines (`board`), the
//! clickable cells and window modes (`layout`), the game's state machine that
//! turns input events into new states (`game`), and the laws that hold of it
//! (`laws`).

pub mod board;
pub mod game;
pub mod laws;
pub mod layout;
