//! A small roguelike core: a tile grid carved into rooms, a player that moves
//! one cell at a time with wall collision, and the frame that a display
//! backend paints.

pub mod tile;
pub mod rect;
pub mod map;
pub mod object;
pub mod movement;
pub mod game;
pub mod input;
