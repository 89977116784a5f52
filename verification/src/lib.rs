//! A fixed-size, chunked voxel world together with two mesh-generation
//! strategies that turn its solid blocks into packed vertex streams.
//!
//! The world is a flat grid of chunks, each chunk a flat grid of blocks.
//! Coordinate types map between flat storage indices and logical grid
//! coordinates; generators fill the world, and the mesh builders walk every
//! solid block and emit one quad (or one point) per cube face, with texture
//! metadata packed into a 32-bit attribute.

pub mod block;
pub mod chunk;
pub mod generator;
pub mod mesh;
pub mod packs;
pub mod texture;
pub mod utils;
pub mod world;
