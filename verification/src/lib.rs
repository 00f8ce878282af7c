//! Rules of a terminal snake game: a bordered board, a snake that slithers and
//! grows, an apple that respawns on free cells, and the per-tick decisions that
//! tie them together. Terminal input and output stay with the caller.

pub mod apple;
pub mod board;
pub mod engine;
pub mod geometry;
pub mod input;
pub mod render;
pub mod snake;

pub use apple::Apple;
pub use engine::Status;
pub use board::{Board, ConfigError, Game, DEFAULT_POLLING_MILLIS, MIN_SIDE};
pub use geometry::{Coord, Direction};
pub use input::{Input, Key, KeyKind, KeyStroke};
pub use render::{control_hint, Paint, ScoreLine, Stroke, CONTROL_HINT_WIDTH};
pub use snake::{Snake, SnakeModel, MIN_LENGTH};
