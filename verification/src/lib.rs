//! Chess position store, move-legality checker and move applier.

pub mod board;
pub mod board_display;
pub mod laws;
pub mod move_checker;
pub mod moves;
pub mod piece;
