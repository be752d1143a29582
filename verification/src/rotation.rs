//! Axis-aligned rotations in exact integer arithmetic.

use vstd::prelude::*;

verus! {

/// An angle that keeps the lattice axes on the lattice axes.
#[derive(Clone, Copy, Debug, PartialEq, Eq, Structural)]
pub enum Angle {
    Zero,
    Plus90,
    Plus180,
    Minus90,
}

impl Angle {
    pub open spec fn spec_degrees(self) -> int {
        match self {
            Angle::Zero => 0,
            Angle::Plus90 => 90,
            Angle::Plus180 => 180,
            Angle::Minus90 => -90,
        }
    }

    pub open spec fn spec_sin(self) -> int {
        match self {
            Angle::Zero => 0,
            Angle::Plus90 => 1,
            Angle::Plus180 => 0,
            Angle::Minus90 => -1,
        }
    }

    pub open spec fn spec_cos(self) -> int {
        match self {
            Angle::Zero => 1,
            Angle::Plus90 => 0,
            Angle::Plus180 => -1,
            Angle::Minus90 => 0,
        }
    }

    /// The angle in degrees.
    pub fn degrees(self) -> (d: i32)
        ensures
            d == self.spec_degrees(),
    {
        match self {
            Angle::Zero => 0,
            Angle::Plus90 => 90,
            Angle::Plus180 => 180,
            Angle::Minus90 => -90,
        }
    }

    /// The sine of the angle.
    pub fn sin(self) -> (s: i32)
        ensures
            s == self.spec_sin(),
    {
        match self {
            Angle::Zero => 0,
            Angle::Plus90 => 1,
            Angle::Plus180 => 0,
            Angle::Minus90 => -1,
        }
    }

    /// The cosine of the angle.
    pub fn cos(self) -> (c: i32)
        ensures
            c == self.spec_cos(),
    {
        match self {
            Angle::Zero => 1,
            Angle::Plus90 => 0,
            Angle::Plus180 => -1,
            Angle::Minus90 => 0,
        }
    }
}

/// A 3x3 integer matrix, as a function from row and column to entry.
pub type Matrix3 = spec_fn(int, int) -> int;

/// The product `a * b`.
pub open spec fn mat_mul(a: Matrix3, b: Matrix3) -> Matrix3 {
    |r: int, c: int| a(r, 0) * b(0, c) + a(r, 1) * b(1, c) + a(r, 2) * b(2, c)
}

/// The matrix applied to the column vector `v`.
pub open spec fn mat_apply(m: Matrix3, v: (int, int, int)) -> (int, int, int) {
    (
        m(0, 0) * v.0 + m(0, 1) * v.1 + m(0, 2) * v.2,
        m(1, 0) * v.0 + m(1, 1) * v.1 + m(1, 2) * v.2,
        m(2, 0) * v.0 + m(2, 1) * v.1 + m(2, 2) * v.2,
    )
}

/// The rotation by `a` about the x axis.
pub open spec fn about_x(a: Angle) -> Matrix3 {
    |r: int, c: int|
        if r == 0 && c == 0 {
            1
        } else if r == 1 && c == 1 {
            a.spec_cos()
        } else if r == 1 && c == 2 {
            -a.spec_sin()
        } else if r == 2 && c == 1 {
            a.spec_sin()
        } else if r == 2 && c == 2 {
            a.spec_cos()
        } else {
            0
        }
}

/// The rotation by `a` about the y axis.
pub open spec fn about_y(a: Angle) -> Matrix3 {
    |r: int, c: int|
        if r == 0 && c == 0 {
            a.spec_cos()
        } else if r == 0 && c == 2 {
            a.spec_sin()
        } else if r == 1 && c == 1 {
            1
        } else if r == 2 && c == 0 {
            -a.spec_sin()
        } else if r == 2 && c == 2 {
            a.spec_cos()
        } else {
            0
        }
}

/// The rotation by `a` about the z axis.
pub open spec fn about_z(a: Angle) -> Matrix3 {
    |r: int, c: int|
        if r == 0 && c == 0 {
            a.spec_cos()
        } else if r == 0 && c == 1 {
            -a.spec_sin()
        } else if r == 1 && c == 0 {
            a.spec_sin()
        } else if r == 1 && c == 1 {
            a.spec_cos()
        } else if r == 2 && c == 2 {
            1
        } else {
            0
        }
}

/// Euler angles: a turn by `roll` about the x axis, then by `pitch` about
/// the y axis, then by `yaw` about the z axis.
#[derive(Clone, Copy, Debug, PartialEq, Eq, Structural)]
pub struct Rotation {
    pub roll: Angle,
    pub pitch: Angle,
    pub yaw: Angle,
}

impl Rotation {
    /// The rotation matrix: roll applied first, yaw last.
    pub open spec fn spec_matrix(self) -> Matrix3 {
        mat_mul(mat_mul(about_z(self.yaw), about_y(self.pitch)), about_x(self.roll))
    }

    /// The rotation matrix, row by row.
    pub fn matrix(&self) -> (m: [[i32; 3]; 3])
        ensures
            forall|r: int, c: int|
                0 <= r < 3 && 0 <= c < 3 ==> #[trigger] m[r][c] == (self.spec_matrix())(r, c),
    {
        let sr: i32 = self.roll.sin();
        let cr: i32 = self.roll.cos();
        let sp: i32 = self.pitch.sin();
        let cp: i32 = self.pitch.cos();
        let sy: i32 = self.yaw.sin();
        let cy: i32 = self.yaw.cos();
        let cy_sp: i32 = unit_product(cy, sp);
        let sy_sp: i32 = unit_product(sy, sp);
        let m: [[i32; 3]; 3] = [
            [
                unit_product(cy, cp),
                unit_product(cy_sp, sr) - unit_product(sy, cr),
                unit_product(cy_sp, cr) + unit_product(sy, sr),
            ],
            [
                unit_product(sy, cp),
                unit_product(sy_sp, sr) + unit_product(cy, cr),
                unit_product(sy_sp, cr) - unit_product(cy, sr),
            ],
            [-sp, unit_product(cp, sr), unit_product(cp, cr)],
        ];
        proof {
            lemma_matrix_entries(*self);
            lemma_unit_factor();
            let e = self.spec_matrix();
            assert(m[0][0] == e(0, 0) && m[0][1] == e(0, 1) && m[0][2] == e(0, 2));
            assert(m[1][0] == e(1, 0) && m[1][1] == e(1, 1) && m[1][2] == e(1, 2));
            assert(m[2][0] == e(2, 0) && m[2][1] == e(2, 1) && m[2][2] == e(2, 2));
        }
        m
    }
}

/// The product of two numbers that are each `-1`, `0` or `1`.
fn unit_product(a: i32, b: i32) -> (p: i32)
    requires
        -1 <= a <= 1,
        -1 <= b <= 1,
    ensures
        p == a * b,
        -1 <= p <= 1,
{
    assert(a * b == 0 || a * b == 1 || a * b == -1) by (nonlinear_arith)
        requires
            -1 <= a <= 1,
            -1 <= b <= 1,
    ;
    a * b
}

/// The entries of the rotation matrix, written out in the sines and
/// cosines of the three angles. Each of them is `-1`, `0` or `1`.
pub proof fn lemma_matrix_entries(rot: Rotation)
    ensures
        ({
            let e = rot.spec_matrix();
            let (sr, cr) = (rot.roll.spec_sin(), rot.roll.spec_cos());
            let (sp, cp) = (rot.pitch.spec_sin(), rot.pitch.spec_cos());
            let (sy, cy) = (rot.yaw.spec_sin(), rot.yaw.spec_cos());
            &&& e(0, 0) == cy * cp
            &&& e(0, 1) == cy * sp * sr - sy * cr
            &&& e(0, 2) == cy * sp * cr + sy * sr
            &&& e(1, 0) == sy * cp
            &&& e(1, 1) == sy * sp * sr + cy * cr
            &&& e(1, 2) == sy * sp * cr - cy * sr
            &&& e(2, 0) == -sp
            &&& e(2, 1) == cp * sr
            &&& e(2, 2) == cp * cr
        }),
        forall|r: int, c: int|
            0 <= r < 3 && 0 <= c < 3 ==> -1 <= #[trigger] (rot.spec_matrix())(r, c) <= 1,
{
    lemma_unit_factor();
    let (sp, cp) = (rot.pitch.spec_sin(), rot.pitch.spec_cos());
    let (sy, cy) = (rot.yaw.spec_sin(), rot.yaw.spec_cos());
    let zy = mat_mul(about_z(rot.yaw), about_y(rot.pitch));
    assert(zy(0, 0) == cy * cp && zy(0, 1) == -sy && zy(0, 2) == cy * sp);
    assert(zy(1, 0) == sy * cp && zy(1, 1) == cy && zy(1, 2) == sy * sp);
    assert(zy(2, 0) == -sp && zy(2, 1) == 0 && zy(2, 2) == cp);
}

/// Multiplying by `-1`, `0` or `1` negates, clears or keeps the other
/// factor.
pub proof fn lemma_unit_factor()
    ensures
        forall|a: int, b: int|
            -1 <= a <= 1 ==> #[trigger] (a * b) == (if a == 0 {
                0
            } else if a == 1 {
                b
            } else {
                -b
            }),
{
    assert forall|a: int, b: int| -1 <= a <= 1 implies #[trigger] (a * b) == (if a == 0 {
        0
    } else if a == 1 {
        b
    } else {
        -b
    }) by {
        assert(a * b == (if a == 0 {
            0
        } else if a == 1 {
            b
        } else {
            -b
        })) by (nonlinear_arith)
            requires
                -1 <= a <= 1,
        ;
    }
}

} // verus!
