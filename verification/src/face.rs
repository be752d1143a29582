//! The six directions a block face can look in, with the tables that give
//! each one its outward normal and its orientation.

use vstd::prelude::*;
use crate::coord::Coord3DI;
use crate::rotation::{lemma_unit_factor, mat_apply, Angle, Rotation};

verus! {

/// One of the six axis-aligned directions.
#[derive(Clone, Copy, Debug, PartialEq, Eq, Structural)]
pub enum Face {
    Up,
    Down,
    Left,
    Right,
    Front,
    Back,
}

impl Face {
    /// The position of the face in every table indexed by face.
    pub open spec fn spec_ordinal(self) -> nat {
        match self {
            Face::Up => 0,
            Face::Down => 1,
            Face::Left => 2,
            Face::Right => 3,
            Face::Front => 4,
            Face::Back => 5,
        }
    }

    /// The face at position `i`, for `i` below six.
    pub open spec fn spec_from_ordinal(i: int) -> Face {
        if i == 0 {
            Face::Up
        } else if i == 1 {
            Face::Down
        } else if i == 2 {
            Face::Left
        } else if i == 3 {
            Face::Right
        } else if i == 4 {
            Face::Front
        } else {
            Face::Back
        }
    }

    /// The outward unit normal.
    pub open spec fn spec_normal(self) -> (int, int, int) {
        match self {
            Face::Up => (0, 1, 0),
            Face::Down => (0, -1, 0),
            Face::Left => (-1, 0, 0),
            Face::Right => (1, 0, 0),
            Face::Front => (0, 0, 1),
            Face::Back => (0, 0, -1),
        }
    }

    /// The orientation that turns a quad looking to the front into one
    /// looking along this face's normal.
    pub open spec fn spec_rotation(self) -> Rotation {
        match self {
            Face::Up => Rotation { roll: Angle::Minus90, pitch: Angle::Zero, yaw: Angle::Zero },
            Face::Down => Rotation { roll: Angle::Plus90, pitch: Angle::Zero, yaw: Angle::Zero },
            Face::Left => Rotation { roll: Angle::Zero, pitch: Angle::Minus90, yaw: Angle::Zero },
            Face::Right => Rotation { roll: Angle::Zero, pitch: Angle::Plus90, yaw: Angle::Zero },
            Face::Front => Rotation { roll: Angle::Zero, pitch: Angle::Zero, yaw: Angle::Zero },
            Face::Back => Rotation { roll: Angle::Zero, pitch: Angle::Plus180, yaw: Angle::Zero },
        }
    }

    /// The position of the face in every table indexed by face.
    pub fn ordinal(self) -> (i: usize)
        ensures
            i == self.spec_ordinal(),
            i < 6,
    {
        match self {
            Face::Up => 0,
            Face::Down => 1,
            Face::Left => 2,
            Face::Right => 3,
            Face::Front => 4,
            Face::Back => 5,
        }
    }

    /// The face with the given ordinal, or `None` from six on.
    pub fn from_ordinal(i: usize) -> (f: Option<Face>)
        ensures
            f == (if i < 6 { Some(Face::spec_from_ordinal(i as int)) } else { None::<Face> }),
            f matches Some(face) ==> face.spec_ordinal() == i,
    {
        match i {
            0 => Some(Face::Up),
            1 => Some(Face::Down),
            2 => Some(Face::Left),
            3 => Some(Face::Right),
            4 => Some(Face::Front),
            5 => Some(Face::Back),
            _ => None,
        }
    }

    /// The outward unit normal. The centre of the face lies half a block
    /// from the block's centre along it, which is this vector in half-block
    /// units.
    pub fn normal(self) -> (n: Coord3DI)
        ensures
            (n.x as int, n.y as int, n.z as int) == self.spec_normal(),
    {
        match self {
            Face::Up => Coord3DI { x: 0, y: 1, z: 0 },
            Face::Down => Coord3DI { x: 0, y: -1, z: 0 },
            Face::Left => Coord3DI { x: -1, y: 0, z: 0 },
            Face::Right => Coord3DI { x: 1, y: 0, z: 0 },
            Face::Front => Coord3DI { x: 0, y: 0, z: 1 },
            Face::Back => Coord3DI { x: 0, y: 0, z: -1 },
        }
    }

    /// The orientation of a quad on this face.
    pub fn rotation(self) -> (r: Rotation)
        ensures
            r == self.spec_rotation(),
    {
        match self {
            Face::Up => Rotation { roll: Angle::Minus90, pitch: Angle::Zero, yaw: Angle::Zero },
            Face::Down => Rotation { roll: Angle::Plus90, pitch: Angle::Zero, yaw: Angle::Zero },
            Face::Left => Rotation { roll: Angle::Zero, pitch: Angle::Minus90, yaw: Angle::Zero },
            Face::Right => Rotation { roll: Angle::Zero, pitch: Angle::Plus90, yaw: Angle::Zero },
            Face::Front => Rotation { roll: Angle::Zero, pitch: Angle::Zero, yaw: Angle::Zero },
            Face::Back => Rotation { roll: Angle::Zero, pitch: Angle::Plus180, yaw: Angle::Zero },
        }
    }
}

/// Faces and the ordinals below six correspond one to one.
pub proof fn lemma_ordinal_roundtrip(face: Face, i: int)
    ensures
        Face::spec_from_ordinal(face.spec_ordinal() as int) == face,
        0 <= i < 6 ==> Face::spec_from_ordinal(i).spec_ordinal() == i,
        face.spec_ordinal() < 6,
{
}

/// The orientation of every face turns the front normal `(0, 0, 1)` into
/// that face's outward normal.
pub proof fn lemma_rotation_turns_front_outward(face: Face)
    ensures
        mat_apply(face.spec_rotation().spec_matrix(), (0, 0, 1)) == face.spec_normal(),
{
    lemma_unit_factor();
}

} // verus!
