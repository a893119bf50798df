//! A verified Connect Four engine: a 6 x 7 board, gravity drops, turn
//! alternation and four-in-a-row detection.

pub mod board;
pub mod game;
pub mod player;
pub mod render;
pub mod rules;

pub use board::{BOARD, BOARD_CELLS, BOARD_HEIGHT, BOARD_WIDTH};
pub use game::Game;
pub use player::{MoveError, PLAYER};
pub use rules::GameView;
