//! Simulation core of a 2D platform game: the tile map, the entities that
//! live on it, the queue of pending spawns, the camera that follows the
//! entities in focus, and the state machine that plays their animations.
//!
//! Every quantity is an integer. Lengths, positions and scalars are counted
//! in thousandths ([`vecmath::UNIT`] to the whole), so one tile is 1000 wide;
//! speeds are thousandths of a tile per second and times are milliseconds.

pub mod animation;
pub mod entities;
pub mod game;
pub mod input;
pub mod sprites;
pub mod states;
pub mod tick;
pub mod utils;
pub mod vecmath;
pub mod world;
