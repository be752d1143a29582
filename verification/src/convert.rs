//! Checked conversions between the scalar types of coordinates.

use vstd::prelude::*;

verus! {

/// `v` as an `i32`, where it is one.
pub open spec fn spec_to_i32(v: int) -> Option<i32> {
    if i32::MIN <= v <= i32::MAX {
        Some(v as i32)
    } else {
        None
    }
}

/// `v` as a `u32`, where it is one.
pub open spec fn spec_to_u32(v: int) -> Option<u32> {
    if 0 <= v <= u32::MAX {
        Some(v as u32)
    } else {
        None
    }
}

/// `num_traits::ToPrimitive::to_i32` on an `i32`: the value itself, always.
#[verifier::external_body]
pub(crate) fn i32_to_i32(v: i32) -> (r: Option<i32>)
    ensures
        r == Some(v),
{
    num_traits::ToPrimitive::to_i32(&v)
}

/// `num_traits::ToPrimitive::to_i32` on a `u32`: the same number as an
/// `i32` where it is at most `i32::MAX`, and `None` above that.
#[verifier::external_body]
pub(crate) fn u32_to_i32(v: u32) -> (r: Option<i32>)
    ensures
        r == spec_to_i32(v as int),
{
    num_traits::ToPrimitive::to_i32(&v)
}

/// `num_traits::ToPrimitive::to_u32` on an `i32`: the same number as a
/// `u32` where it is not negative, and `None` below zero.
#[verifier::external_body]
pub(crate) fn i32_to_u32(v: i32) -> (r: Option<u32>)
    ensures
        r == spec_to_u32(v as int),
{
    num_traits::ToPrimitive::to_u32(&v)
}

/// `num_traits::ToPrimitive::to_u32` on a `u32`: the value itself, always.
#[verifier::external_body]
pub(crate) fn u32_to_u32(v: u32) -> (r: Option<u32>)
    ensures
        r == Some(v),
{
    num_traits::ToPrimitive::to_u32(&v)
}

} // verus!
