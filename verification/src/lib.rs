//! A terminal platformer's simulation core: tile grid, actor physics,
//! particles, frame composition and a cell-diffing renderer.

pub mod actor;
pub mod compose;
pub mod enemy;
pub mod grid;
pub mod input;
pub mod num;
pub mod particle;
pub mod pixel;
pub mod rand;
pub mod render;
pub mod world;
