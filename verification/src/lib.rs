//! Game-state core of a falling-block puzzle: the shape table, the board,
//! placement rules and the per-frame session logic.

pub mod blocks;
pub mod board;
pub mod rules;
pub mod game;
pub mod history;
pub mod render;
pub mod overlay;
