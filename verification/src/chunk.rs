//! Chunks and their generation from a field of density samples.

use vstd::prelude::*;
use crate::block::Block;
use crate::coord::{in_chunk, index, lemma_pack_in_chunk, pack, Coord2DI, Coord3DI};
use crate::material::Material;
use crate::{CHUNK_HEIGHT, CHUNK_SIZE};

verus! {

/// Number of lattice cells in a chunk.
pub const LATTICE_LEN: usize = CHUNK_SIZE * CHUNK_SIZE * CHUNK_HEIGHT;

/// A density sample, carried as the bit pattern of an IEEE-754
/// double-precision number.
#[derive(Clone, Copy, Debug, PartialEq, Eq, Structural)]
pub struct Density {
    pub bits: u64,
}

impl Density {
    /// The sample that stands in where the field has none: the bits of
    /// `0.0`, which count as solid.
    pub open spec fn spec_zero() -> Density {
        Density { bits: 0 }
    }

    /// Whether the sample is below zero: its sign bit is set and what
    /// remains is neither zero nor a NaN.
    pub open spec fn spec_is_air(self) -> bool {
        0x8000_0000_0000_0000 < self.bits <= 0xFFF0_0000_0000_0000
    }

    pub fn from_bits(bits: u64) -> (d: Density)
        ensures
            d.bits == bits,
    {
        Density { bits }
    }

    pub fn to_bits(self) -> (bits: u64)
        ensures
            bits == self.bits,
    {
        self.bits
    }

    /// The stand-in sample for a position outside the field.
    #[verifier::when_used_as_spec(spec_zero)]
    pub fn zero() -> (d: Density)
        ensures
            d == Density::spec_zero(),
    {
        Density { bits: 0 }
    }

    /// Whether the cell with this density is air. Every other cell is
    /// solid, the one with density zero too.
    #[verifier::when_used_as_spec(spec_is_air)]
    pub fn is_air(self) -> (air: bool)
        ensures
            air == self.spec_is_air(),
    {
        0x8000_0000_0000_0000 < self.bits && self.bits <= 0xFFF0_0000_0000_0000
    }
}

/// The lattice cell with number `k` when the chunk is walked layer by
/// layer, row by row: `x` runs fastest, then `z`, then `y`.
pub open spec fn spec_cell(k: int) -> Coord3DI {
    Coord3DI { x: (k % 16) as i32, y: (k / 256) as i32, z: ((k / 16) % 16) as i32 }
}

/// The density that the field `noise` gives for `(x, y, z)`. Inside the
/// chunk it is the cell's own sample, which lies at `y * 256 + z * 16 + x`.
/// Everywhere else, and where the field is too short to have that sample,
/// it is the stand-in: no position is ever answered with the sample of
/// another cell.
pub open spec fn spec_density_at(noise: Seq<Density>, x: i32, y: i32, z: i32) -> Density {
    if in_chunk(x as int, y as int, z as int) && y * 256 + z * 16 + x < noise.len() {
        noise[y * 256 + z * 16 + x]
    } else {
        Density::spec_zero()
    }
}

/// Whether cell `k` holds a block.
pub open spec fn spec_is_solid(noise: Seq<Density>, k: int) -> bool {
    let c = spec_cell(k);
    !spec_density_at(noise, c.x, c.y, c.z).spec_is_air()
}

/// The material of a block in cell `k`: grass where the cell above is air,
/// dirt elsewhere.
pub open spec fn spec_material_at(noise: Seq<Density>, k: int) -> Material {
    let c = spec_cell(k);
    if spec_density_at(noise, c.x, (c.y + 1) as i32, c.z).spec_is_air() {
        Material::spec_grass()
    } else {
        Material::spec_dirt()
    }
}

/// The block in cell `k`.
pub open spec fn spec_block_at(noise: Seq<Density>, k: int) -> Block {
    Block { pos: spec_cell(k), material: spec_material_at(noise, k) }
}

/// The blocks of the first `n` cells: the solid ones, in the order of the
/// walk.
pub open spec fn spec_blocks_upto(noise: Seq<Density>, n: int) -> Seq<Block> {
    Seq::new(n as nat, |k: int| k).filter(|k: int| spec_is_solid(noise, k)).map_values(
        |k: int| spec_block_at(noise, k),
    )
}

/// A column of the world, generated and meshed as one unit.
pub struct Chunk {
    pub pos: Coord2DI,
    pub blocks: Vec<Block>,
}

impl Chunk {
    /// The block with number `index` in the order of generation.
    pub fn get_block(&self, index: usize) -> (block: Option<&Block>)
        ensures
            block == (if index < self.blocks@.len() {
                Some(&self.blocks@[index as int])
            } else {
                None
            }),
    {
        if index < self.blocks.len() {
            Some(&self.blocks[index])
        } else {
            None
        }
    }
}

/// A source of chunks. What it generates depends on the generator and on
/// the position asked for, and on nothing else.
pub trait ChunkGenerator {
    /// The blocks of the chunk at `pos`.
    spec fn spec_blocks(&self, pos: Coord2DI) -> Seq<Block>;

    fn generate_chunk(&self, pos: Coord2DI) -> (chunk: Chunk)
        ensures
            chunk.pos == pos,
            chunk.blocks@ == self.spec_blocks(pos),
    ;
}

/// Generates terrain from a precomputed field of density samples, one for
/// every cell of the chunk.
pub struct VanillaGenerator {
    noise: Vec<Density>,
}

impl VanillaGenerator {
    /// The samples, by packed index.
    pub closed spec fn spec_noise(&self) -> Seq<Density> {
        self.noise@
    }

    /// What holds of every generator: the field has one sample for every
    /// cell of the chunk.
    #[verifier::type_invariant]
    pub closed spec fn wf(self) -> bool {
        self.noise@.len() == LATTICE_LEN
    }

    /// The lattice cells in the order of their packed indices. The sample
    /// for the cell at position `k` of the result belongs at position `k`
    /// of the field.
    pub fn lattice() -> (cells: Vec<Coord3DI>)
        ensures
            cells@.len() == LATTICE_LEN,
            forall|k: int| 0 <= k < LATTICE_LEN ==> #[trigger] cells@[k] == spec_cell(k),
            forall|k: int|
                0 <= k < LATTICE_LEN ==> pack(
                    (#[trigger] cells@[k]).x,
                    cells@[k].y,
                    cells@[k].z,
                ) == k,
    {
        let mut cells: Vec<Coord3DI> = Vec::new();
        for y in 0..CHUNK_HEIGHT
            invariant
                cells@.len() == y * CHUNK_SIZE * CHUNK_SIZE,
                forall|k: int| 0 <= k < cells@.len() ==> #[trigger] cells@[k] == spec_cell(k),
                forall|k: int|
                    0 <= k < cells@.len() ==> pack(
                        (#[trigger] cells@[k]).x,
                        cells@[k].y,
                        cells@[k].z,
                    ) == k,
        {
            for z in 0..CHUNK_SIZE
                invariant
                    y < CHUNK_HEIGHT,
                    cells@.len() == y * CHUNK_SIZE * CHUNK_SIZE + z * CHUNK_SIZE,
                    forall|k: int| 0 <= k < cells@.len() ==> #[trigger] cells@[k] == spec_cell(k),
                    forall|k: int|
                        0 <= k < cells@.len() ==> pack(
                            (#[trigger] cells@[k]).x,
                            cells@[k].y,
                            cells@[k].z,
                        ) == k,
            {
                for x in 0..CHUNK_SIZE
                    invariant
                        y < CHUNK_HEIGHT,
                        z < CHUNK_SIZE,
                        cells@.len() == y * CHUNK_SIZE * CHUNK_SIZE + z * CHUNK_SIZE + x,
                        forall|k: int|
                            0 <= k < cells@.len() ==> #[trigger] cells@[k] == spec_cell(k),
                        forall|k: int|
                            0 <= k < cells@.len() ==> pack(
                                (#[trigger] cells@[k]).x,
                                cells@[k].y,
                                cells@[k].z,
                            ) == k,
                {
                    let xi: i32 = x as i32;
                    let yi: i32 = y as i32;
                    let zi: i32 = z as i32;
                    proof {
                        lemma_pack_in_chunk(xi, yi, zi);
                    }
                    cells.push(Coord3DI::new(xi, yi, zi));
                }
            }
        }
        cells
    }

    /// A generator over the field `noise`, which has to hold one sample for
    /// every cell of the chunk, by packed index.
    pub fn new(noise: Vec<Density>) -> (generator: Option<Self>)
        ensures
            generator is Some <==> noise@.len() == LATTICE_LEN,
            generator matches Some(g) ==> g.spec_noise() == noise@,
    {
        if noise.len() == LATTICE_LEN {
            Some(Self { noise })
        } else {
            None
        }
    }

    /// The density at `(x, y, z)`: the cell's own sample inside the chunk,
    /// and the stand-in `Density::zero()` at every position outside it.
    pub fn get_noise(&self, x: i32, y: i32, z: i32) -> (d: Density)
        ensures
            d == spec_density_at(self.spec_noise(), x, y, z),
            !in_chunk(x as int, y as int, z as int) ==> d == Density::spec_zero(),
    {
        if x < 0 || x >= CHUNK_SIZE as i32 || y < 0 || y >= CHUNK_HEIGHT as i32 || z < 0 || z
            >= CHUNK_SIZE as i32 {
            return Density::zero();
        }
        proof {
            lemma_pack_in_chunk(x, y, z);
        }
        let i = index(&x, &y, &z);
        if i >= self.noise.len() {
            return Density::zero();
        }
        self.noise[i]
    }
}

impl ChunkGenerator for VanillaGenerator {
    /// The solid cells in the order of the walk, whatever the position: a
    /// cell is solid unless its density is below zero, and it is grass
    /// where the cell above it is air.
    open spec fn spec_blocks(&self, pos: Coord2DI) -> Seq<Block> {
        spec_blocks_upto(self.spec_noise(), LATTICE_LEN as int)
    }

    fn generate_chunk(&self, pos: Coord2DI) -> (chunk: Chunk) {
        let mut blocks: Vec<Block> = Vec::new();
        for y in 0..CHUNK_HEIGHT
            invariant
                blocks@ == spec_blocks_upto(self.spec_noise(), y * CHUNK_SIZE * CHUNK_SIZE),
        {
            for z in 0..CHUNK_SIZE
                invariant
                    y < CHUNK_HEIGHT,
                    blocks@ == spec_blocks_upto(
                        self.spec_noise(),
                        y * CHUNK_SIZE * CHUNK_SIZE + z * CHUNK_SIZE,
                    ),
            {
                for x in 0..CHUNK_SIZE
                    invariant
                        y < CHUNK_HEIGHT,
                        z < CHUNK_SIZE,
                        blocks@ == spec_blocks_upto(
                            self.spec_noise(),
                            y * CHUNK_SIZE * CHUNK_SIZE + z * CHUNK_SIZE + x,
                        ),
                {
                    let xi: i32 = x as i32;
                    let yi: i32 = y as i32;
                    let zi: i32 = z as i32;
                    proof {
                        lemma_blocks_step(
                            self.spec_noise(),
                            y * CHUNK_SIZE * CHUNK_SIZE + z * CHUNK_SIZE + x,
                        );
                    }
                    let noise = self.get_noise(xi, yi, zi);

                    if !noise.is_air() {
                        // Grass where the block above is air, dirt elsewhere
                        let material = if self.get_noise(xi, yi + 1, zi).is_air() {
                            Material::grass()
                        } else {
                            Material::dirt()
                        };
                        blocks.push(Block { pos: Coord3DI::new(xi, yi, zi), material });
                    }
                }
            }
        }
        Chunk { pos, blocks }
    }
}

/// Whether `chunk` is what `generator` gives for `pos`.
pub open spec fn generated_by<G: ChunkGenerator>(generator: G, pos: Coord2DI, chunk: Chunk) -> bool {
    chunk.pos == pos && chunk.blocks@ == generator.spec_blocks(pos)
}

/// Generation is deterministic: two chunks that one generator gives for one
/// position have the same position and hold the same blocks, with the same
/// positions and materials, in the same order.
pub proof fn lemma_generation_deterministic<G: ChunkGenerator>(
    generator: G,
    pos: Coord2DI,
    first: Chunk,
    second: Chunk,
)
    requires
        generated_by(generator, pos, first),
        generated_by(generator, pos, second),
    ensures
        first.pos == second.pos,
        first.blocks@ == second.blocks@,
{
}

/// Two generators over the same field give the same blocks, wherever the
/// chunks lie.
pub proof fn lemma_same_field_same_blocks(
    first: VanillaGenerator,
    second: VanillaGenerator,
    pos: Coord2DI,
    other: Coord2DI,
)
    requires
        first.spec_noise() == second.spec_noise(),
    ensures
        first.spec_blocks(pos) == second.spec_blocks(other),
{
}

/// Outside the chunk every field gives the stand-in, which is solid:
/// whatever the packed index of such a position may be, it never reads the
/// sample of a cell.
pub proof fn lemma_outside_is_zero(noise: Seq<Density>, x: i32, y: i32, z: i32)
    requires
        !in_chunk(x as int, y as int, z as int),
    ensures
        spec_density_at(noise, x, y, z) == Density::spec_zero(),
        !spec_density_at(noise, x, y, z).spec_is_air(),
{
}

/// One past the top of the chunk the density is the stand-in, which is
/// solid.
pub proof fn lemma_above_top_is_zero(generator: VanillaGenerator, x: i32, z: i32)
    ensures
        spec_density_at(generator.spec_noise(), x, CHUNK_HEIGHT as i32, z) == Density::spec_zero(),
        !spec_density_at(generator.spec_noise(), x, CHUNK_HEIGHT as i32, z).spec_is_air(),
{
}

/// Inside the chunk the density is the sample at the cell's packed index,
/// which is `y * 256 + z * 16 + x`.
pub proof fn lemma_density_in_chunk(generator: VanillaGenerator, x: i32, y: i32, z: i32)
    requires
        generator.wf(),
        in_chunk(x as int, y as int, z as int),
    ensures
        pack(x, y, z) == y * 256 + z * 16 + x,
        spec_density_at(generator.spec_noise(), x, y, z) == generator.spec_noise()[pack(
            x,
            y,
            z,
        ) as int],
{
    lemma_pack_in_chunk(x, y, z);
}

/// Whether `block` is the block of a solid cell among the first `n`.
pub open spec fn from_solid_cell(noise: Seq<Density>, n: int, block: Block) -> bool {
    exists|k: int|
        0 <= k < n && spec_is_solid(noise, k) && block == #[trigger] spec_block_at(noise, k)
}

/// The blocks of the first `n` cells are at most `n`, and each one is the
/// block of a solid cell: it lies where that cell lies, and it is grass
/// exactly where the cell above is air.
pub proof fn lemma_blocks_are_solid_cells(noise: Seq<Density>, n: int)
    requires
        0 <= n,
    ensures
        spec_blocks_upto(noise, n).len() <= n,
        forall|i: int|
            0 <= i < spec_blocks_upto(noise, n).len() ==> from_solid_cell(
                noise,
                n,
                #[trigger] spec_blocks_upto(noise, n)[i],
            ),
    decreases n,
{
    let all = spec_blocks_upto(noise, n);
    if n > 0 {
        lemma_blocks_are_solid_cells(noise, n - 1);
        lemma_blocks_step(noise, n - 1);
        let before = spec_blocks_upto(noise, n - 1);
        assert forall|i: int| 0 <= i < all.len() implies from_solid_cell(noise, n, #[trigger] all[i]) by {
            if i < before.len() {
                assert(from_solid_cell(noise, n - 1, before[i]));
                let k = choose|k: int|
                    0 <= k < n - 1 && spec_is_solid(noise, k) && before[i] == #[trigger] spec_block_at(
                        noise,
                        k,
                    );
                assert(all[i] == spec_block_at(noise, k));
            } else {
                assert(all[i] == spec_block_at(noise, n - 1));
            }
        }
    } else {
        Seq::new(0, |k: int| k).lemma_filter_len(|k: int| spec_is_solid(noise, k));
    }
}

/// The number of the cell that `block` lies in: its packed index.
pub open spec fn spec_cell_number(block: Block) -> int {
    pack(block.pos.x, block.pos.y, block.pos.z) as int
}

/// The blocks come in the order of the walk, and none is missing: their
/// cell numbers grow from each block to the next, and every solid cell
/// among the first `n` has its block.
pub proof fn lemma_blocks_in_scan_order(noise: Seq<Density>, n: int)
    requires
        0 <= n <= LATTICE_LEN,
    ensures
        forall|i: int|
            0 <= i < spec_blocks_upto(noise, n).len() ==> 0 <= spec_cell_number(
                #[trigger] spec_blocks_upto(noise, n)[i],
            ) < n,
        forall|i: int, j: int|
            0 <= i < j < spec_blocks_upto(noise, n).len() ==> spec_cell_number(
                #[trigger] spec_blocks_upto(noise, n)[i],
            ) < spec_cell_number(#[trigger] spec_blocks_upto(noise, n)[j]),
        forall|k: int|
            0 <= k < n && spec_is_solid(noise, k) ==> spec_blocks_upto(noise, n).contains(
                #[trigger] spec_block_at(noise, k),
            ),
    decreases n,
{
    let all = spec_blocks_upto(noise, n);
    if n > 0 {
        let before = spec_blocks_upto(noise, n - 1);
        lemma_blocks_in_scan_order(noise, n - 1);
        lemma_blocks_step(noise, n - 1);
        let c = spec_cell(n - 1);
        lemma_pack_in_chunk(c.x, c.y, c.z);
        assert(spec_cell_number(spec_block_at(noise, n - 1)) == n - 1);
        assert forall|k: int| 0 <= k < n && spec_is_solid(noise, k) implies all.contains(
            #[trigger] spec_block_at(noise, k),
        ) by {
            if k < n - 1 {
                assert(before.contains(spec_block_at(noise, k)));
                let i = choose|i: int| 0 <= i < before.len() && before[i] == spec_block_at(noise, k);
                assert(all[i] == spec_block_at(noise, k));
            } else {
                assert(all[all.len() - 1] == spec_block_at(noise, k));
            }
        }
    } else {
        Seq::new(0, |k: int| k).lemma_filter_len(|k: int| spec_is_solid(noise, k));
    }
}

/// One more cell adds its block where the cell is solid, and nothing where
/// it is air.
pub proof fn lemma_blocks_step(noise: Seq<Density>, k: int)
    requires
        0 <= k,
    ensures
        spec_blocks_upto(noise, k + 1) == (if spec_is_solid(noise, k) {
            spec_blocks_upto(noise, k).push(spec_block_at(noise, k))
        } else {
            spec_blocks_upto(noise, k)
        }),
{
    let cells = Seq::new(k as nat, |i: int| i);
    let more = Seq::new((k + 1) as nat, |i: int| i);
    let solid = |i: int| spec_is_solid(noise, i);
    assert(more == cells.push(k));
    cells.lemma_filter_push(k, solid);
}

} // verus!
