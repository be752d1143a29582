//! Voxel terrain: density fields, chunk generation and the conversion of
//! blocks into oriented, textured quads.
//!
//! All quantities are exact integers. Densities are carried as IEEE-754
//! bit patterns, positions in half-block units and rotations as
//! axis-aligned Euler angles, so every contract is stated without rounding.

use vstd::prelude::*;

pub mod block;
pub mod block_map;
pub mod block_vector;
pub mod chunk;
pub mod controls;
pub mod convert;
pub mod coord;
pub mod face;
pub mod instance;
pub mod material;
pub mod mesh;
pub mod point;
pub mod quad;
pub mod rotation;
pub mod seed;
pub mod visibility;

verus! {

/// Edge length of a chunk along the two horizontal axes, in blocks.
pub const CHUNK_SIZE: usize = 16;

/// Height of a chunk, in blocks.
pub const CHUNK_HEIGHT: usize = 256;

} // verus!
