//! A verified game-state engine for two-player three-in-a-row on a 3x3 grid.
//!
//! The library owns the board, the turn indicator, and the win/draw
//! detection logic. Rendering and event handling are left to a separate
//! presentation layer that calls into [`game::Game`].

pub mod game;

pub use game::Cell;
pub use game::Game;
