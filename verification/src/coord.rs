//! Lattice coordinates and the packing of a block position into a flat
//! buffer index.

use vstd::prelude::*;
use crate::convert::{i32_to_i32, spec_to_i32, u32_to_i32};
use crate::{CHUNK_HEIGHT, CHUNK_SIZE};

verus! {

/// The packed index of the lattice cell `(x, y, z)`: `y` above bit 8, `z` in
/// bits 4 to 7 and `x` in the low four bits.
pub open spec fn pack(x: i32, y: i32, z: i32) -> usize {
    ((y << 8u32) | (z << 4u32) | x) as usize
}

/// Whether `(x, y, z)` lies in the chunk: both horizontal coordinates below
/// `CHUNK_SIZE`, the vertical one below `CHUNK_HEIGHT`, none negative.
pub open spec fn in_chunk(x: int, y: int, z: int) -> bool {
    0 <= x < CHUNK_SIZE && 0 <= y < CHUNK_HEIGHT && 0 <= z < CHUNK_SIZE
}

/// A scalar that can serve as a lattice coordinate.
pub trait Point: Copy {
    /// The coordinate as an `i32`, where it fits.
    spec fn spec_to_i32(&self) -> Option<i32>;

    fn to_i32(&self) -> (r: Option<i32>)
        ensures
            r == self.spec_to_i32(),
    ;
}

impl Point for i32 {
    open spec fn spec_to_i32(&self) -> Option<i32> {
        Some(*self)
    }

    fn to_i32(&self) -> (r: Option<i32>) {
        i32_to_i32(*self)
    }
}

impl Point for u32 {
    open spec fn spec_to_i32(&self) -> Option<i32> {
        spec_to_i32(*self as int)
    }

    fn to_i32(&self) -> (r: Option<i32>) {
        u32_to_i32(*self)
    }
}

/// A value with a position in a flat buffer.
pub trait Indexable {
    /// Whether the value has an index at all.
    spec fn indexable(&self) -> bool;

    /// The index, meaningful where `indexable` holds.
    spec fn spec_index(&self) -> usize;

    fn index(&self) -> (r: usize)
        requires
            self.indexable(),
        ensures
            r == self.spec_index(),
    ;
}

/// Flattens `(x, y, z)` into one buffer index.
///
/// Each coordinate has to fit an `i32`. Inside the chunk the index is
/// `y * 256 + z * 16 + x` (see `lemma_pack_in_chunk`).
pub fn index<T: Point>(x: &T, y: &T, z: &T) -> (r: usize)
    requires
        x.spec_to_i32() is Some,
        y.spec_to_i32() is Some,
        z.spec_to_i32() is Some,
    ensures
        r == pack(x.spec_to_i32().unwrap(), y.spec_to_i32().unwrap(), z.spec_to_i32().unwrap()),
{
    let xi: i32 = x.to_i32().unwrap();
    let yi: i32 = y.to_i32().unwrap();
    let zi: i32 = z.to_i32().unwrap();
    ((yi << 8u32) | (zi << 4u32) | xi) as usize
}

/// A point of the plane.
#[derive(Clone, Copy, Debug)]
pub struct Coord2<T: Point> {
    pub x: T,
    pub y: T,
}

/// A point of space.
#[derive(Clone, Copy, Debug)]
pub struct Coord3<T: Point> {
    pub x: T,
    pub y: T,
    pub z: T,
}

impl<T: Point> Coord2<T> {
    pub fn new(x: T, y: T) -> (c: Self)
        ensures
            c.x == x,
            c.y == y,
    {
        Self { x, y }
    }
}

impl<T: Point> Coord3<T> {
    pub fn new(x: T, y: T, z: T) -> (c: Self)
        ensures
            c.x == x,
            c.y == y,
            c.z == z,
    {
        Self { x, y, z }
    }
}

impl<T: Point> Indexable for Coord3<T> {
    open spec fn indexable(&self) -> bool {
        self.x.spec_to_i32() is Some && self.y.spec_to_i32() is Some && self.z.spec_to_i32() is Some
    }

    open spec fn spec_index(&self) -> usize {
        pack(
            self.x.spec_to_i32().unwrap(),
            self.y.spec_to_i32().unwrap(),
            self.z.spec_to_i32().unwrap(),
        )
    }

    fn index(&self) -> (r: usize) {
        index(&self.x, &self.y, &self.z)
    }
}

pub type Coord2DI = Coord2<i32>;

pub type Coord3DI = Coord3<i32>;

/// A position in half-block units: every field is twice the world
/// coordinate, so a block centre has even fields and the centre of a face is
/// odd along the axis the face looks in.
#[derive(Clone, Copy, Debug, PartialEq, Eq, Structural)]
pub struct Coord3DH {
    pub x: i64,
    pub y: i64,
    pub z: i64,
}

impl Coord3DH {
    pub fn new(x: i64, y: i64, z: i64) -> (c: Self)
        ensures
            c == (Coord3DH { x, y, z }),
    {
        Self { x, y, z }
    }
}

/// Inside the chunk, and for every height up to `2^23`, packing is the
/// row-major position `y * 256 + z * 16 + x`.
pub proof fn lemma_pack_in_chunk(x: i32, y: i32, z: i32)
    requires
        0 <= x < 16,
        0 <= z < 16,
        0 <= y < 0x80_0000,
    ensures
        pack(x, y, z) == y * 256 + z * 16 + x,
{
    assert(((y << 8u32) | (z << 4u32) | x) as usize == y * 256 + z * 16 + x) by (bit_vector)
        requires
            0 <= x < 16,
            0 <= z < 16,
            0 <= y < 0x80_0000,
    ;
}

/// Two different cells of the chunk never share a packed index, and every
/// packed index of the chunk is below the number of its cells.
pub proof fn lemma_pack_unique(x1: i32, y1: i32, z1: i32, x2: i32, y2: i32, z2: i32)
    requires
        in_chunk(x1 as int, y1 as int, z1 as int),
        in_chunk(x2 as int, y2 as int, z2 as int),
    ensures
        pack(x1, y1, z1) < CHUNK_SIZE * CHUNK_SIZE * CHUNK_HEIGHT,
        pack(x1, y1, z1) == pack(x2, y2, z2) <==> (x1 == x2 && y1 == y2 && z1 == z2),
{
    lemma_pack_in_chunk(x1, y1, z1);
    lemma_pack_in_chunk(x2, y2, z2);
}

} // verus!
