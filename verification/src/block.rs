//! A placed block: a lattice position and a material.

use vstd::prelude::*;
use crate::block_vector::{spec_faces_upto, BlockVector};
use crate::coord::Coord3DI;
use crate::material::{spec_visible_textures, Material};

verus! {

/// A solid cell of the lattice.
pub struct Block {
    pub pos: Coord3DI,
    pub material: Material,
}

impl Block {
    /// The quads of the block, one for every face that `faces` marks
    /// visible.
    pub fn to_vector(&self, faces: [bool; 6]) -> (v: BlockVector)
        ensures
            v.spec_pos() == self.pos,
            v@ == spec_faces_upto(self.pos, spec_visible_textures(self.material@, faces@), 6),
    {
        self.material.to_vector(self.pos, faces)
    }
}

} // verus!
