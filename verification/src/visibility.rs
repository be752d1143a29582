//! Which faces of a block can be seen: those whose neighbour cell is air or
//! lies outside the chunk.

use vstd::prelude::*;
use crate::block::Block;
use crate::chunk::{Chunk, LATTICE_LEN};
use crate::coord::{in_chunk, index, lemma_pack_in_chunk, lemma_pack_unique, pack, Coord3DI};
use crate::face::Face;

verus! {

/// Whether `(x, y, z)` is a cell of the chunk that holds one of `blocks`.
pub open spec fn spec_occupied(blocks: Seq<Block>, x: int, y: int, z: int) -> bool {
    in_chunk(x, y, z) && exists|i: int|
        0 <= i < blocks.len() && (#[trigger] blocks[i]).pos.x == x && blocks[i].pos.y == y
            && blocks[i].pos.z == z
}

/// Whether the face `face` of a block at `pos` can be seen among `blocks`:
/// the cell it touches is air or lies outside the chunk.
pub open spec fn spec_visible(blocks: Seq<Block>, pos: Coord3DI, face: Face) -> bool {
    let n = face.spec_normal();
    !spec_occupied(blocks, pos.x + n.0, pos.y + n.1, pos.z + n.2)
}

/// Answers, for the blocks of one chunk, which cells are taken: one flag
/// for each cell, by packed index.
pub struct FaceVisibilitySolver {
    occupied: Vec<bool>,
}

impl FaceVisibilitySolver {
    #[verifier::type_invariant]
    spec fn wf(self) -> bool {
        self.occupied@.len() == LATTICE_LEN
    }

    /// Whether the solver has `(x, y, z)` as a taken cell of the chunk.
    pub closed spec fn spec_is_occupied(&self, x: int, y: int, z: int) -> bool {
        in_chunk(x, y, z) && self.occupied@[y * 256 + z * 16 + x]
    }

    /// The solver for the blocks of `chunk`. Blocks outside the chunk's
    /// bounds take no cell.
    pub fn new(chunk: &Chunk) -> (solver: Self)
        ensures
            forall|x: int, y: int, z: int| #[trigger]
                solver.spec_is_occupied(x, y, z) == spec_occupied(chunk.blocks@, x, y, z),
    {
        let mut occupied: Vec<bool> = vec![false; 65536];
        let mut i: usize = 0;
        while i < chunk.blocks.len()
            invariant
                i <= chunk.blocks@.len(),
                occupied@.len() == LATTICE_LEN,
                forall|k: int|
                    0 <= k < LATTICE_LEN ==> (#[trigger] occupied@[k] <==> exists|j: int|
                        0 <= j < i && taken_by(#[trigger] chunk.blocks@[j], k)),
            decreases chunk.blocks@.len() - i,
        {
            let p = chunk.blocks[i].pos;
            if 0 <= p.x && p.x < 16 && 0 <= p.y && p.y < 256 && 0 <= p.z && p.z < 16 {
                proof {
                    lemma_pack_in_chunk(p.x, p.y, p.z);
                }
                let ghost before = occupied@;
                let at = index(&p.x, &p.y, &p.z);
                occupied.set(at, true);
                proof {
                    assert(taken_by(chunk.blocks@[i as int], at as int));
                    assert forall|k: int| 0 <= k < LATTICE_LEN implies (#[trigger] occupied@[k]
                        <==> exists|j: int|
                        0 <= j < i + 1 && taken_by(#[trigger] chunk.blocks@[j], k)) by {
                        if k != at {
                            assert(occupied@[k] == before[k]);
                        }
                    }
                }
            }
            i += 1;
        }
        let solver = Self { occupied };
        proof {
            assert forall|x: int, y: int, z: int| #[trigger]
                solver.spec_is_occupied(x, y, z) == spec_occupied(chunk.blocks@, x, y, z) by {
                if in_chunk(x, y, z) {
                    lemma_pack_in_chunk(x as i32, y as i32, z as i32);
                    let k = y * 256 + z * 16 + x;
                    if solver.occupied@[k] {
                        let j = choose|j: int|
                            0 <= j < chunk.blocks@.len() && taken_by(#[trigger] chunk.blocks@[j], k);
                        let p = chunk.blocks@[j].pos;
                        lemma_pack_unique(p.x, p.y, p.z, x as i32, y as i32, z as i32);
                    }
                    if spec_occupied(chunk.blocks@, x, y, z) {
                        let j = choose|j: int|
                            0 <= j < chunk.blocks@.len() && (#[trigger] chunk.blocks@[j]).pos.x == x
                                && chunk.blocks@[j].pos.y == y && chunk.blocks@[j].pos.z == z;
                        assert(taken_by(chunk.blocks@[j], k));
                    }
                }
            }
        }
        solver
    }

    /// Whether `(x, y, z)` is a taken cell of the chunk.
    pub fn is_occupied(&self, x: i64, y: i64, z: i64) -> (taken: bool)
        ensures
            taken == self.spec_is_occupied(x as int, y as int, z as int),
    {
        proof {
            use_type_invariant(self);
        }
        if 0 <= x && x < 16 && 0 <= y && y < 256 && 0 <= z && z < 16 {
            proof {
                lemma_pack_in_chunk(x as i32, y as i32, z as i32);
            }
            let xi: i32 = x as i32;
            let yi: i32 = y as i32;
            let zi: i32 = z as i32;
            self.occupied[index(&xi, &yi, &zi)]
        } else {
            false
        }
    }

    /// Whether `face` of a block at `pos` can be seen: the cell it touches
    /// is not taken.
    pub fn is_visible(&self, pos: Coord3DI, face: Face) -> (seen: bool)
        ensures
            seen == !self.spec_is_occupied(
                pos.x + face.spec_normal().0,
                pos.y + face.spec_normal().1,
                pos.z + face.spec_normal().2,
            ),
    {
        let n = face.normal();
        !self.is_occupied(
            pos.x as i64 + n.x as i64,
            pos.y as i64 + n.y as i64,
            pos.z as i64 + n.z as i64,
        )
    }

    /// The mask of the faces of a block at `pos` that can be seen, by the
    /// ordinal of the face.
    pub fn visible_faces(&self, pos: Coord3DI) -> (mask: [bool; 6])
        ensures
            forall|face: Face|
                mask@[#[trigger] face.spec_ordinal() as int] == !self.spec_is_occupied(
                    pos.x + face.spec_normal().0,
                    pos.y + face.spec_normal().1,
                    pos.z + face.spec_normal().2,
                ),
    {
        [
            self.is_visible(pos, Face::Up),
            self.is_visible(pos, Face::Down),
            self.is_visible(pos, Face::Left),
            self.is_visible(pos, Face::Right),
            self.is_visible(pos, Face::Front),
            self.is_visible(pos, Face::Back),
        ]
    }
}

/// Whether `block` lies in the chunk, in the cell with packed index `k`.
pub open spec fn taken_by(block: Block, k: int) -> bool {
    in_chunk(block.pos.x as int, block.pos.y as int, block.pos.z as int) && pack(
        block.pos.x,
        block.pos.y,
        block.pos.z,
    ) == k
}

} // verus!
