//! Instance records: what the renderer needs to draw one quad.

use vstd::prelude::*;
use crate::coord::Coord3DH;
use crate::quad::Quad;
use crate::rotation::{lemma_unit_factor, Matrix3};

verus! {

/// A 4x4 integer matrix, as a function from row and column to entry.
pub type Matrix4 = spec_fn(int, int) -> int;

/// The product `a * b`.
pub open spec fn mat4_mul(a: Matrix4, b: Matrix4) -> Matrix4 {
    |r: int, c: int| a(r, 0) * b(0, c) + a(r, 1) * b(1, c) + a(r, 2) * b(2, c) + a(r, 3) * b(3, c)
}

/// Twice the homogeneous translation to the point that `pos` gives in
/// half-block units. The factor two keeps every entry whole.
pub open spec fn spec_translation(pos: Coord3DH) -> Matrix4 {
    |r: int, c: int|
        if r == c {
            2
        } else if c == 3 && r == 0 {
            pos.x as int
        } else if c == 3 && r == 1 {
            pos.y as int
        } else if c == 3 && r == 2 {
            pos.z as int
        } else {
            0
        }
}

/// The 3x3 matrix `m` as a homogeneous 4x4 matrix.
pub open spec fn spec_homogeneous(m: Matrix3) -> Matrix4 {
    |r: int, c: int|
        if 0 <= r < 3 && 0 <= c < 3 {
            m(r, c)
        } else if r == 3 && c == 3 {
            1
        } else {
            0
        }
}

/// The model transform of `quad`: its translation times its rotation, in
/// half-block units.
pub open spec fn spec_model(quad: Quad) -> Matrix4 {
    mat4_mul(spec_translation(quad.pos), spec_homogeneous(quad.rot.spec_matrix()))
}

/// The model transform, entry by entry: the doubled rotation in the upper
/// left, the position in the last column and `(0, 0, 0, 2)` in the last
/// row.
pub proof fn lemma_model_entries(quad: Quad)
    ensures
        forall|r: int, c: int|
            0 <= r < 3 && 0 <= c < 3 ==> #[trigger] spec_model(quad)(r, c) == 2 * (
            quad.rot.spec_matrix())(r, c),
        spec_model(quad)(0, 3) == quad.pos.x,
        spec_model(quad)(1, 3) == quad.pos.y,
        spec_model(quad)(2, 3) == quad.pos.z,
        spec_model(quad)(3, 0) == 0,
        spec_model(quad)(3, 1) == 0,
        spec_model(quad)(3, 2) == 0,
        spec_model(quad)(3, 3) == 2,
{
    lemma_unit_factor();
    assert(quad.pos.x * 0 == 0 && quad.pos.y * 0 == 0 && quad.pos.z * 0 == 0);
    assert(quad.pos.x * 1 == quad.pos.x && quad.pos.y * 1 == quad.pos.y && quad.pos.z * 1
        == quad.pos.z);
}

/// The record of one quad. `model` holds the transform column by column,
/// every entry doubled: the entry in row `r` and column `c` is `model[c][r]`,
/// and half of it is the entry in block units.
#[derive(Clone, Copy, Debug, PartialEq, Eq)]
pub struct InstanceRaw {
    pub model: [[i64; 4]; 4],
    pub texture_index: u32,
}

impl InstanceRaw {
    /// Whether the record holds the transform `model`, column by column,
    /// and the texture `texture_index`.
    pub open spec fn holds(self, model: Matrix4, texture_index: u32) -> bool {
        &&& self.texture_index == texture_index
        &&& forall|r: int, c: int|
            0 <= r < 4 && 0 <= c < 4 ==> #[trigger] self.model[c][r] == model(r, c)
    }
}

/// A value that can be drawn as one instance.
pub trait Raw {
    /// The model transform, in half-block units.
    spec fn spec_model(&self) -> Matrix4;

    /// The texture.
    spec fn spec_texture_index(&self) -> u32;

    fn to_raw(&self) -> (raw: InstanceRaw)
        ensures
            raw.holds(self.spec_model(), self.spec_texture_index()),
    ;
}

impl Raw for Quad {
    open spec fn spec_model(&self) -> Matrix4 {
        spec_model(*self)
    }

    open spec fn spec_texture_index(&self) -> u32 {
        self.texture_index
    }

    /// The translation to the quad's position times its rotation, and its
    /// texture.
    fn to_raw(&self) -> (raw: InstanceRaw) {
        let m: [[i32; 3]; 3] = self.rot.matrix();
        let model: [[i64; 4]; 4] = [
            [2 * (m[0][0] as i64), 2 * (m[1][0] as i64), 2 * (m[2][0] as i64), 0],
            [2 * (m[0][1] as i64), 2 * (m[1][1] as i64), 2 * (m[2][1] as i64), 0],
            [2 * (m[0][2] as i64), 2 * (m[1][2] as i64), 2 * (m[2][2] as i64), 0],
            [self.pos.x, self.pos.y, self.pos.z, 2],
        ];
        proof {
            lemma_model_entries(*self);
        }
        InstanceRaw { model, texture_index: self.texture_index }
    }
}

} // verus!
