use vstd::prelude::*;

use crate::arith::{abs_int, checked_div_i128, div_tz, SCALE};
use crate::errors::TargetingError;

verus! {

/// A velocity-relative local orbital frame in which a correction may be
/// expressed. The rotation from such a frame to the inertial frame is looked
/// up from the orbit collaborator as a direction-cosine matrix.
#[derive(Clone, Copy, Debug, PartialEq, Eq, Structural)]
pub enum LocalFrame {
    /// Radial, cross-track, normal.
    RCN,
    /// Velocity, normal, co-normal.
    VNC,
    /// Radial, in-track, cross-track.
    RIC,
}

/// A three-component fixed-point vector.
#[derive(Clone, Copy, Debug, PartialEq, Eq, Structural)]
pub struct Vec3 {
    pub x: i64,
    pub y: i64,
    pub z: i64,
}

impl Vec3 {
    /// The zero vector.
    pub fn zero() -> (r: Vec3)
        ensures
            r.x == 0 && r.y == 0 && r.z == 0,
    {
        Vec3 { x: 0, y: 0, z: 0 }
    }
}

/// One row of a direction-cosine matrix dotted with a vector, in fixed point:
/// the products are scaled back down by `SCALE` and rounded towards zero.
pub open spec fn dot_scaled_spec(row: Vec3, v: Vec3) -> int {
    div_tz(row.x * v.x + row.y * v.y + row.z * v.z, SCALE as int)
}

/// A direction-cosine matrix, stored row by row in fixed point. A rotation
/// matrix has every entry within `[-1, 1]`, that is within `[-SCALE, SCALE]`
/// counts; `is_unit_bounded` captures that invariant, and the corrector
/// rejects any matrix handed back by a collaborator that breaks it.
#[derive(Clone, Copy, Debug, PartialEq, Eq, Structural)]
pub struct Dcm {
    pub rx: Vec3,
    pub ry: Vec3,
    pub rz: Vec3,
}

pub open spec fn entry_bounded(v: Vec3) -> bool {
    &&& abs_int(v.x as int) <= SCALE
    &&& abs_int(v.y as int) <= SCALE
    &&& abs_int(v.z as int) <= SCALE
}

impl Dcm {
    /// Whether every entry lies within `[-SCALE, SCALE]`, as the entries of a
    /// true direction-cosine matrix must.
    pub open spec fn is_unit_bounded(self) -> bool {
        entry_bounded(self.rx) && entry_bounded(self.ry) && entry_bounded(self.rz)
    }

    /// Checks the direction-cosine bound on every entry.
    pub fn check_unit_bounded(&self) -> (r: bool)
        ensures
            r <==> self.is_unit_bounded(),
    {
        row_bounded(&self.rx) && row_bounded(&self.ry) && row_bounded(&self.rz)
    }

    /// The transpose, which for a direction-cosine matrix is the inverse
    /// rotation.
    pub fn transpose(&self) -> (r: Dcm)
        ensures
            r.rx.x == self.rx.x && r.rx.y == self.ry.x && r.rx.z == self.rz.x,
            r.ry.x == self.rx.y && r.ry.y == self.ry.y && r.ry.z == self.rz.y,
            r.rz.x == self.rx.z && r.rz.y == self.ry.z && r.rz.z == self.rz.z,
            self.is_unit_bounded() ==> r.is_unit_bounded(),
    {
        Dcm {
            rx: Vec3 { x: self.rx.x, y: self.ry.x, z: self.rz.x },
            ry: Vec3 { x: self.rx.y, y: self.ry.y, z: self.rz.y },
            rz: Vec3 { x: self.rx.z, y: self.ry.z, z: self.rz.z },
        }
    }

    /// Rotates a vector: each result component is the matching row dotted
    /// with `v`, scaled back down by `SCALE` with rounding towards zero.
    pub fn apply(&self, v: &Vec3) -> (r: Result<Vec3, TargetingError>)
        requires
            self.is_unit_bounded(),
        ensures
            r matches Ok(w) ==> {
                &&& w.x == dot_scaled_spec(self.rx, *v)
                &&& w.y == dot_scaled_spec(self.ry, *v)
                &&& w.z == dot_scaled_spec(self.rz, *v)
            },
            r is Err ==> r == Err::<Vec3, TargetingError>(TargetingError::ValueOutOfRange),
    {
        let x: i64 = match dot_scaled(&self.rx, v) {
            Ok(c) => c,
            Err(e) => {
                return Err(e);
            },
        };
        let y: i64 = match dot_scaled(&self.ry, v) {
            Ok(c) => c,
            Err(e) => {
                return Err(e);
            },
        };
        let z: i64 = match dot_scaled(&self.rz, v) {
            Ok(c) => c,
            Err(e) => {
                return Err(e);
            },
        };
        Ok(Vec3 { x, y, z })
    }
}

/// Checks that every component of one row lies within `[-SCALE, SCALE]`.
fn row_bounded(v: &Vec3) -> (r: bool)
    ensures
        r <==> entry_bounded(*v),
{
    -SCALE <= v.x && v.x <= SCALE && -SCALE <= v.y && v.y <= SCALE && -SCALE <= v.z && v.z
        <= SCALE
}

/// Dot product of one unit-bounded row with a vector, scaled down by `SCALE`.
fn dot_scaled(row: &Vec3, v: &Vec3) -> (r: Result<i64, TargetingError>)
    requires
        entry_bounded(*row),
    ensures
        r matches Ok(c) ==> c == dot_scaled_spec(*row, *v),
        r is Err ==> r == Err::<i64, TargetingError>(TargetingError::ValueOutOfRange),
{
    proof {
        lemma_entry_product_bound(row.x as int, v.x as int);
        lemma_entry_product_bound(row.y as int, v.y as int);
        lemma_entry_product_bound(row.z as int, v.z as int);
    }
    let px: i128 = row.x as i128 * v.x as i128;
    let py: i128 = row.y as i128 * v.y as i128;
    let pz: i128 = row.z as i128 * v.z as i128;
    checked_div_i128(px + py + pz, SCALE)
}

/// The product of a `[-SCALE, SCALE]` entry with any `i64` stays far inside
/// the `i128` range.
proof fn lemma_entry_product_bound(e: int, v: int)
    requires
        abs_int(e) <= SCALE,
        i64::MIN <= v <= i64::MAX,
    ensures
        abs_int(e * v) <= (SCALE as int) * (i64::MAX as int + 1),
{
    assert(abs_int(e * v) <= (SCALE as int) * (i64::MAX as int + 1)) by (nonlinear_arith)
        requires
            abs_int(e) <= SCALE,
            -(i64::MAX as int) - 1 <= v <= i64::MAX as int,
    ;
}

} // verus!
