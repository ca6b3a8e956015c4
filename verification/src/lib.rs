//! Game logic for a tile-placing factory game: the board of tiles, the
//! keyboard handling that moves the selection cursor and places tiles, the
//! byte layout of vertex data handed to the graphics driver, and the
//! preparation of texture pixels.

pub mod utilities;
pub mod texture;
pub mod game;
pub mod events;
pub mod geometry;
pub mod rendering;
