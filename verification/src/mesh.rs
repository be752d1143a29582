//! From the blocks of a chunk to the instance records of its quads.

use vstd::prelude::*;
use crate::block::Block;
use crate::block_map::{spec_deref, spec_quads, BlockMap};
use crate::block_vector::spec_faces_upto;
use crate::chunk::Chunk;
use crate::face::Face;
use crate::instance::{spec_model, InstanceRaw, Raw};
use crate::material::spec_visible_textures;
use crate::quad::Quad;
use crate::visibility::{spec_occupied, spec_visible, FaceVisibilitySolver};

verus! {

/// The mask that shows all six faces.
pub const ALL_FACES: [bool; 6] = [true, true, true, true, true, true];

/// The quads of `block` on the faces that `mask` marks, in the order of
/// the faces' ordinals.
pub open spec fn spec_block_quads(block: Block, mask: Seq<bool>) -> Seq<Quad> {
    spec_faces_upto(block.pos, spec_visible_textures(block.material@, mask), 6)
}

/// The mask of the faces of `block` that can be seen among `blocks`.
pub open spec fn spec_visible_mask(blocks: Seq<Block>, block: Block) -> Seq<bool> {
    Seq::new(6, |i: int| spec_visible(blocks, block.pos, Face::spec_from_ordinal(i)))
}

/// With all faces shown a block has six quads, one for each face in the
/// order of the ordinals, each with the material's texture for that face.
pub proof fn lemma_all_faces_six_quads(block: Block)
    ensures
        spec_block_quads(block, ALL_FACES@).len() == 6,
        forall|i: int|
            0 <= i < 6 ==> (#[trigger] spec_block_quads(block, ALL_FACES@)[i]).facing
                == Face::spec_from_ordinal(i) && spec_block_quads(
                block,
                ALL_FACES@,
            )[i].texture_index == block.material@[i],
{
    reveal_with_fuel(spec_faces_upto, 7);
}

/// Meshes every block of `chunk` with all six faces, in the order of the
/// chunk's blocks.
pub fn mesh_chunk(chunk: &Chunk) -> (map: BlockMap)
    ensures
        map@.len() == chunk.blocks@.len(),
        forall|i: int|
            0 <= i < map@.len() ==> (#[trigger] map@[i]).spec_pos() == chunk.blocks@[i].pos
                && map@[i]@ == spec_block_quads(chunk.blocks@[i], ALL_FACES@),
{
    let mut map = BlockMap::new();
    let mut i: usize = 0;
    while i < chunk.blocks.len()
        invariant
            i <= chunk.blocks@.len(),
            map@.len() == i,
            forall|k: int|
                0 <= k < i ==> (#[trigger] map@[k]).spec_pos() == chunk.blocks@[k].pos && map@[k]@
                    == spec_block_quads(chunk.blocks@[k], ALL_FACES@),
        decreases chunk.blocks@.len() - i,
    {
        map.push(chunk.blocks[i].to_vector(ALL_FACES));
        i += 1;
    }
    map
}

/// Meshes every block of `chunk` with the faces that can be seen: those
/// that touch air or the chunk's boundary.
pub fn mesh_chunk_culled(chunk: &Chunk) -> (map: BlockMap)
    ensures
        map@.len() == chunk.blocks@.len(),
        forall|i: int|
            0 <= i < map@.len() ==> (#[trigger] map@[i]).spec_pos() == chunk.blocks@[i].pos
                && map@[i]@ == spec_block_quads(
                chunk.blocks@[i],
                spec_visible_mask(chunk.blocks@, chunk.blocks@[i]),
            ),
{
    let solver = FaceVisibilitySolver::new(chunk);
    let mut map = BlockMap::new();
    let mut i: usize = 0;
    while i < chunk.blocks.len()
        invariant
            i <= chunk.blocks@.len(),
            map@.len() == i,
            forall|x: int, y: int, z: int| #[trigger]
                solver.spec_is_occupied(x, y, z) == spec_occupied(chunk.blocks@, x, y, z),
            forall|k: int|
                0 <= k < i ==> (#[trigger] map@[k]).spec_pos() == chunk.blocks@[k].pos && map@[k]@
                    == spec_block_quads(
                    chunk.blocks@[k],
                    spec_visible_mask(chunk.blocks@, chunk.blocks@[k]),
                ),
        decreases chunk.blocks@.len() - i,
    {
        let block = &chunk.blocks[i];
        let mask = solver.visible_faces(block.pos);
        proof {
            let want = spec_visible_mask(chunk.blocks@, *block);
            assert forall|k: int| 0 <= k < 6 implies mask@[k] == want[k] by {
                let face = Face::spec_from_ordinal(k);
                assert(face.spec_ordinal() == k);
            }
            assert(mask@ == want);
        }
        map.push(block.to_vector(mask));
        i += 1;
    }
    map
}

/// The instance record of every quad of `map`, in the order of
/// `BlockMap::quads`.
pub fn instance_data(map: &BlockMap) -> (data: Vec<InstanceRaw>)
    ensures
        data@.len() == spec_quads(map@).len(),
        forall|i: int|
            0 <= i < data@.len() ==> (#[trigger] data@[i]).holds(
                spec_model(spec_quads(map@)[i]),
                spec_quads(map@)[i].texture_index,
            ),
{
    let quads = map.quads();
    let mut data: Vec<InstanceRaw> = Vec::new();
    let mut i: usize = 0;
    while i < quads.len()
        invariant
            i <= quads@.len(),
            spec_deref(quads@) == spec_quads(map@),
            data@.len() == i,
            forall|k: int|
                0 <= k < i ==> (#[trigger] data@[k]).holds(
                    spec_model(spec_quads(map@)[k]),
                    spec_quads(map@)[k].texture_index,
                ),
        decreases quads@.len() - i,
    {
        assert(spec_deref(quads@)[i as int] == *quads@[i as int]);
        data.push(quads[i].to_raw());
        i += 1;
    }
    assert(spec_deref(quads@).len() == quads@.len());
    data
}

} // verus!
