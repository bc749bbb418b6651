//! Movement and rendering core of a turn-based tile-grid game: a fixed-size map of
//! tiles, positioned glyph entities with collision-checked movement, a layered
//! cell buffer that frames are rendered into, and the decisions of the game loop.

pub mod color;
pub mod entity;
pub mod game;
pub mod input;
pub mod map;
pub mod render;
pub mod session;
pub mod tile;
