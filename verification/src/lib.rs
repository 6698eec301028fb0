//! Rules engine for a grid-based snake game.
//!
//! The engine tracks the snake's body, heading, food location, score and
//! game phase, and advances the simulation one tick at a time. It is a
//! plain value with synchronous operations; the caller decides when ticks
//! happen and how the returned grid snapshot is rendered.

pub mod body;
pub mod engine;
pub mod field;
pub mod geometry;
pub mod placement;
mod rng;

pub use body::SnakeBody;
pub use engine::GameEnd;
pub use engine::GameStatus;
pub use engine::Snake;
pub use field::Field;
pub use field::FieldTile;
pub use geometry::CurrentDirection;
pub use geometry::Direction;
pub use geometry::Point;
