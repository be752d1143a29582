//! One textured, oriented unit square: a visible face of a block.

use vstd::prelude::*;
use crate::coord::Coord3DH;
use crate::face::Face;
use crate::face::lemma_rotation_turns_front_outward;
use crate::rotation::{mat_apply, Rotation};

verus! {

/// A visible face of a block. `pos` is the centre of the face in half-block
/// units; `rot` turns a front-facing quad into the direction of `facing`.
#[derive(Clone, Copy, Debug, PartialEq, Eq, Structural)]
pub struct Quad {
    pub facing: Face,
    pub pos: Coord3DH,
    pub rot: Rotation,
    pub texture_index: u32,
}

impl Quad {
    /// The quad at `position` that looks along `facing`.
    pub open spec fn spec_new(position: Coord3DH, facing: Face, texture_index: u32) -> Quad {
        Quad { facing, pos: position, rot: facing.spec_rotation(), texture_index }
    }

    /// Whether the rotation is the one that the facing prescribes.
    pub open spec fn is_oriented(self) -> bool {
        self.rot == self.facing.spec_rotation()
    }

    /// The same quad with another texture.
    pub open spec fn with_texture(self, texture_index: u32) -> Quad {
        Quad { facing: self.facing, pos: self.pos, rot: self.rot, texture_index }
    }

    /// Builds the quad at `position` that looks along `facing`; its rotation
    /// is taken from the orientation table and from nothing else.
    pub fn new(position: Coord3DH, facing: Face, texture_index: u32) -> (q: Quad)
        ensures
            q == Quad::spec_new(position, facing, texture_index),
            q.is_oriented(),
    {
        Quad { facing, pos: position, rot: facing.rotation(), texture_index }
    }

    /// Rewrites the texture in place; facing, position and rotation stay.
    pub fn set_texture_index(&mut self, texture_index: u32)
        ensures
            *final(self) == old(self).with_texture(texture_index),
    {
        self.texture_index = texture_index;
    }
}

/// The rotation of a quad that is oriented as its facing prescribes, and so
/// of every quad that `Quad::new` builds, turns the front normal `(0, 0, 1)`
/// into the outward normal of the quad's face.
pub proof fn lemma_quad_looks_outward(quad: Quad)
    requires
        quad.is_oriented(),
    ensures
        mat_apply(quad.rot.spec_matrix(), (0, 0, 1)) == quad.facing.spec_normal(),
{
    lemma_rotation_turns_front_outward(quad.facing);
}

} // verus!
