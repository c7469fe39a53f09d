//! A two-player tic-tac-toe engine: the board and its win detection, the turn
//! state machine driven by polled mouse input, and the glyph blitting that
//! paints the pieces into a pixel buffer.
//!
//! Every function carries a contract over a mathematical model of the game,
//! and the module `laws` proves the properties that relate several functions.

pub mod piece;
pub mod board;
pub mod render;
pub mod engine;
pub mod laws;
pub mod util;
