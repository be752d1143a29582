//! Points over a choice of scalar, and casts from one scalar to another.

use vstd::prelude::*;
use crate::convert::{i32_to_i32, i32_to_u32, spec_to_i32, spec_to_u32, u32_to_i32, u32_to_u32};
use crate::coord::pack;

verus! {

/// Whether a 32-bit integer type, unsigned or signed, has a value for the
/// number `v`.
pub open spec fn spec_admits(unsigned: bool, v: int) -> bool {
    if unsigned {
        0 <= v <= u32::MAX
    } else {
        i32::MIN <= v <= i32::MAX
    }
}

/// Whether the scalar type `A` has a value for the number `v`.
pub open spec fn admits<A: Point>(v: int) -> bool {
    spec_admits(A::spec_unsigned(), v)
}

/// A scalar that a point can be made of: a 32-bit integer, signed or not.
pub trait Point: Copy {
    /// The number that the scalar stands for.
    spec fn spec_value(&self) -> int;

    /// Whether the type holds the numbers from zero to `u32::MAX`, rather
    /// than those from `i32::MIN` to `i32::MAX`.
    spec fn spec_unsigned() -> bool;

    fn unsigned() -> (u: bool)
        ensures
            u == Self::spec_unsigned(),
    ;

    fn to_i32(&self) -> (r: Option<i32>)
        ensures
            r == spec_to_i32(self.spec_value()),
    ;

    fn to_u32(&self) -> (r: Option<u32>)
        ensures
            r == spec_to_u32(self.spec_value()),
    ;

    /// The scalar for `v`, where the type has one.
    fn from_i32(v: i32) -> (r: Option<Self>)
        ensures
            r is Some <==> spec_admits(Self::spec_unsigned(), v as int),
            r matches Some(p) ==> p.spec_value() == v,
    ;

    /// The scalar for `v`, where the type has one.
    fn from_u32(v: u32) -> (r: Option<Self>)
        ensures
            r is Some <==> spec_admits(Self::spec_unsigned(), v as int),
            r matches Some(p) ==> p.spec_value() == v,
    ;
}

impl Point for i32 {
    open spec fn spec_value(&self) -> int {
        *self as int
    }

    open spec fn spec_unsigned() -> bool {
        false
    }

    fn unsigned() -> (u: bool) {
        false
    }

    fn to_i32(&self) -> (r: Option<i32>) {
        i32_to_i32(*self)
    }

    fn to_u32(&self) -> (r: Option<u32>) {
        i32_to_u32(*self)
    }

    fn from_i32(v: i32) -> (r: Option<Self>) {
        i32_to_i32(v)
    }

    fn from_u32(v: u32) -> (r: Option<Self>) {
        u32_to_i32(v)
    }
}

impl Point for u32 {
    open spec fn spec_value(&self) -> int {
        *self as int
    }

    open spec fn spec_unsigned() -> bool {
        true
    }

    fn unsigned() -> (u: bool) {
        true
    }

    fn to_i32(&self) -> (r: Option<i32>) {
        u32_to_i32(*self)
    }

    fn to_u32(&self) -> (r: Option<u32>) {
        u32_to_u32(*self)
    }

    fn from_i32(v: i32) -> (r: Option<Self>) {
        i32_to_u32(v)
    }

    fn from_u32(v: u32) -> (r: Option<Self>) {
        u32_to_u32(v)
    }
}

/// A value with a position in a flat buffer.
pub trait Indexable {
    /// Whether the value has an index at all.
    spec fn indexable(&self) -> bool;

    /// The index, meaningful where `indexable` holds.
    spec fn spec_index(&self) -> usize;

    fn index(&self) -> (r: usize)
        requires
            self.indexable(),
        ensures
            r == self.spec_index(),
    ;
}

/// A cast to another type that may lose a value the target cannot hold.
pub trait LossyCast<T> {
    /// Whether the target can hold what the cast reads.
    spec fn castable(&self) -> bool;

    /// Whether `to` is what the cast of this value gives.
    spec fn casts_to(&self, to: T) -> bool;

    fn cast(&self) -> (to: T)
        requires
            self.castable(),
        ensures
            self.casts_to(to),
    ;
}

/// Flattens `(x, y, z)` into one buffer index, as `coord::index` does.
/// Each coordinate has to fit an `i32`.
pub fn index<T: Point>(x: &T, y: &T, z: &T) -> (r: usize)
    requires
        spec_to_i32(x.spec_value()) is Some,
        spec_to_i32(y.spec_value()) is Some,
        spec_to_i32(z.spec_value()) is Some,
    ensures
        r == pack(x.spec_value() as i32, y.spec_value() as i32, z.spec_value() as i32),
{
    let xi: i32 = x.to_i32().unwrap();
    let yi: i32 = y.to_i32().unwrap();
    let zi: i32 = z.to_i32().unwrap();
    ((yi << 8u32) | (zi << 4u32) | xi) as usize
}

/// The scalar of type `A` for the number that `x` stands for. The number
/// has to be one that `A` admits.
fn try_cast<T: Point, A: Point>(x: T) -> (r: Option<A>)
    requires
        admits::<A>(x.spec_value()),
    ensures
        r matches Some(a) && a.spec_value() == x.spec_value(),
{
    if A::unsigned() {
        A::from_u32(x.to_u32().unwrap())
    } else {
        A::from_i32(x.to_i32().unwrap())
    }
}

/// A point of the plane.
#[derive(Clone, Copy, Debug)]
pub struct Point2<T: Point> {
    pub x: T,
    pub y: T,
}

/// A point of space.
#[derive(Clone, Copy, Debug)]
pub struct Point3<T: Point> {
    pub x: T,
    pub y: T,
    pub z: T,
}

impl<T: Point> Point2<T> {
    pub fn new(x: T, y: T) -> (p: Self)
        ensures
            p.x == x,
            p.y == y,
    {
        Self { x, y }
    }
}

impl<T: Point> Point3<T> {
    pub fn new(x: T, y: T, z: T) -> (p: Self)
        ensures
            p.x == x,
            p.y == y,
            p.z == z,
    {
        Self { x, y, z }
    }

    /// The point of the plane with this point's `x` and `y`.
    pub fn to_coord2(&self) -> (p: Point2<T>)
        ensures
            p.x == self.x,
            p.y == self.y,
    {
        Point2 { x: self.x, y: self.y }
    }
}

impl<T: Point> Indexable for Point3<T> {
    open spec fn indexable(&self) -> bool {
        &&& spec_to_i32(self.x.spec_value()) is Some
        &&& spec_to_i32(self.y.spec_value()) is Some
        &&& spec_to_i32(self.z.spec_value()) is Some
    }

    open spec fn spec_index(&self) -> usize {
        pack(self.x.spec_value() as i32, self.y.spec_value() as i32, self.z.spec_value() as i32)
    }

    fn index(&self) -> (r: usize) {
        index(&self.x, &self.y, &self.z)
    }
}

impl<A: Point, T: Point> LossyCast<Point2<A>> for Point2<T> {
    open spec fn castable(&self) -> bool {
        admits::<A>(self.x.spec_value()) && admits::<A>(self.y.spec_value())
    }

    open spec fn casts_to(&self, to: Point2<A>) -> bool {
        to.x.spec_value() == self.x.spec_value() && to.y.spec_value() == self.y.spec_value()
    }

    /// Casts both coordinates.
    fn cast(&self) -> (to: Point2<A>) {
        Point2 { x: try_cast(self.x).unwrap(), y: try_cast(self.y).unwrap() }
    }
}

impl<A: Point, T: Point> LossyCast<Point3<A>> for Point3<T> {
    open spec fn castable(&self) -> bool {
        admits::<A>(self.x.spec_value())
    }

    open spec fn casts_to(&self, to: Point3<A>) -> bool {
        &&& to.x.spec_value() == self.x.spec_value()
        &&& to.y.spec_value() == self.x.spec_value()
        &&& to.z.spec_value() == self.x.spec_value()
    }

    /// Casts `x` and gives it to all three coordinates of the result.
    fn cast(&self) -> (to: Point3<A>) {
        Point3 { x: try_cast(self.x).unwrap(), y: try_cast(self.x).unwrap(), z: try_cast(self.x).unwrap() }
    }
}

pub type Point2DI = Point2<i32>;

pub type Point3DI = Point3<i32>;

pub type Coord2DI = Point2<i32>;

pub type Coord3DI = Point3<i32>;

} // verus!
