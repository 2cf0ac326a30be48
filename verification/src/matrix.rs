//! 4x4 transforms over the fixed-point scalar: construction of camera
//! bases, translation and scaling matrices, the matrix product, the
//! matrix-vector product, and a general inverse by the adjugate/cofactor
//! method with an identity fallback on a zero determinant.
//!
//! The element at matrix position (col, row) lives at flat index
//! `col + 4 * row`; a camera matrix stores the basis vectors' components
//! along its rows and the position in its fourth column.

use vstd::prelude::*;

use crate::fixed::{fx_div, fx_div_spec, fx_mul, fx_mul_spec, lemma_tdiv_mul_cancel, sat, sat64, FX_MAX, FX_MIN, FX_ONE};
use crate::vector::{vcross_spec, vec_wf, vnorm_spec, vsub_spec, Vec4};

verus! {

/// A 4x4 transform, sixteen scalars in flat row-after-row storage.
#[derive(Clone, Copy, PartialEq, Eq, Debug)]
pub struct Mat4 {
    pub d: [i64; 16],
}

/// The entry at flat index i, as a mathematical integer.
pub open spec fn md(m: Mat4, i: int) -> int {
    m.d@[i] as int
}

/// The sixteen entries of the identity transform.
pub open spec fn id_seq() -> Seq<i64> {
    seq![
        FX_ONE, 0i64, 0i64, 0i64,
        0i64, FX_ONE, 0i64, 0i64,
        0i64, 0i64, FX_ONE, 0i64,
        0i64, 0i64, 0i64, FX_ONE,
    ]
}

/// The entries of a camera transform: basis vectors' components along the
/// rows, the position in the fourth column, and a final (0,0,0,1) row.
pub open spec fn camera_seq(fwd: Vec4, right: Vec4, up: Vec4, pos: Vec4) -> Seq<i64> {
    seq![
        right.x, up.x, fwd.x, pos.x,
        right.y, up.y, fwd.y, pos.y,
        right.z, up.z, fwd.z, pos.z,
        0i64, 0i64, 0i64, FX_ONE,
    ]
}

/// The camera transform derived from an eye position and a look-at target:
/// forward is the normalized difference, right comes from the world up
/// reference (0, 1, 0) by a normalized cross product, and up closes the
/// basis. A forward direction parallel to the world up makes the cross
/// product degenerate; that case is documented, not guarded.
pub open spec fn look_seq(eye: Vec4, target: Vec4) -> Seq<i64> {
    let fwd = vnorm_spec(vsub_spec(target, eye));
    let world_up = Vec4 { x: 0i64, y: FX_ONE, z: 0i64, w: 0i64 };
    let right = vnorm_spec(vcross_spec(world_up, fwd));
    let up = vnorm_spec(vcross_spec(fwd, right));
    camera_seq(fwd, right, up, eye)
}

/// The entries of a translation transform.
pub open spec fn translation_seq(t: Vec4) -> Seq<i64> {
    seq![
        FX_ONE, 0i64, 0i64, t.x,
        0i64, FX_ONE, 0i64, t.y,
        0i64, 0i64, FX_ONE, t.z,
        0i64, 0i64, 0i64, FX_ONE,
    ]
}

/// The entries of an axis-aligned scaling transform.
pub open spec fn scale_seq(f: Vec4) -> Seq<i64> {
    seq![
        f.x, 0i64, 0i64, 0i64,
        0i64, f.y, 0i64, 0i64,
        0i64, 0i64, f.z, 0i64,
        0i64, 0i64, 0i64, FX_ONE,
    ]
}

/// Entry j of the matrix product: with row = j % 4 and col = j / 4, the
/// saturated sum of the four rounded products a(row, k) * b(k, col).
pub open spec fn mul_entry(a: Mat4, b: Mat4, j: int) -> int {
    let row = j % 4;
    let col = j / 4;
    sat(
        fx_mul_spec(md(a, row), md(b, 4 * col)) + fx_mul_spec(md(a, row + 4), md(b, 4 * col + 1))
            + fx_mul_spec(md(a, row + 8), md(b, 4 * col + 2)) + fx_mul_spec(
            md(a, row + 12),
            md(b, 4 * col + 3),
        ),
    )
}

/// Component `row` of the matrix-vector product, the vector taken as a
/// column in homogeneous coordinates.
pub open spec fn xform_entry(m: Mat4, v: Vec4, row: int) -> int {
    sat(
        fx_mul_spec(md(m, 4 * row), v.x as int) + fx_mul_spec(md(m, 4 * row + 1), v.y as int)
            + fx_mul_spec(md(m, 4 * row + 2), v.z as int) + fx_mul_spec(
            md(m, 4 * row + 3),
            v.w as int,
        ),
    )
}

/// The matrix-vector product as a value.
pub open spec fn xform_spec(m: Mat4, v: Vec4) -> Vec4 {
    Vec4 {
        x: xform_entry(m, v, 0) as i64,
        y: xform_entry(m, v, 1) as i64,
        z: xform_entry(m, v, 2) as i64,
        w: xform_entry(m, v, 3) as i64,
    }
}

/// A product of three scalars, rounded pairwise left to right.
pub open spec fn triple(a: int, b: int, c: int) -> int {
    fx_mul_spec(fx_mul_spec(a, b), c)
}

/// The adjugate entry written by the inverse at flat index 0.
pub open spec fn cof0(m: Mat4) -> int {
    sat(triple(md(m, 5), md(m, 10), md(m, 15)) - triple(md(m, 5), md(m, 11), md(m, 14)) - triple(md(m, 9), md(m, 6), md(m, 15)) + triple(md(m, 9), md(m, 7), md(m, 14)) + triple(md(m, 13), md(m, 6), md(m, 11)) - triple(md(m, 13), md(m, 7), md(m, 10)))
}

/// The adjugate entry written by the inverse at flat index 1.
pub open spec fn cof1(m: Mat4) -> int {
    sat(- triple(md(m, 1), md(m, 10), md(m, 15)) + triple(md(m, 1), md(m, 11), md(m, 14)) + triple(md(m, 9), md(m, 2), md(m, 15)) - triple(md(m, 9), md(m, 3), md(m, 14)) - triple(md(m, 13), md(m, 2), md(m, 11)) + triple(md(m, 13), md(m, 3), md(m, 10)))
}

/// The adjugate entry written by the inverse at flat index 2.
pub open spec fn cof2(m: Mat4) -> int {
    sat(triple(md(m, 1), md(m, 6), md(m, 15)) - triple(md(m, 1), md(m, 7), md(m, 14)) - triple(md(m, 5), md(m, 2), md(m, 15)) + triple(md(m, 5), md(m, 3), md(m, 14)) + triple(md(m, 13), md(m, 2), md(m, 7)) - triple(md(m, 13), md(m, 3), md(m, 6)))
}

/// The adjugate entry written by the inverse at flat index 3.
pub open spec fn cof3(m: Mat4) -> int {
    sat(- triple(md(m, 1), md(m, 6), md(m, 11)) + triple(md(m, 1), md(m, 7), md(m, 10)) + triple(md(m, 5), md(m, 2), md(m, 11)) - triple(md(m, 5), md(m, 3), md(m, 10)) - triple(md(m, 9), md(m, 2), md(m, 7)) + triple(md(m, 9), md(m, 3), md(m, 6)))
}

/// The adjugate entry written by the inverse at flat index 4.
pub open spec fn cof4(m: Mat4) -> int {
    sat(- triple(md(m, 4), md(m, 10), md(m, 15)) + triple(md(m, 4), md(m, 11), md(m, 14)) + triple(md(m, 8), md(m, 6), md(m, 15)) - triple(md(m, 8), md(m, 7), md(m, 14)) - triple(md(m, 12), md(m, 6), md(m, 11)) + triple(md(m, 12), md(m, 7), md(m, 10)))
}

/// The adjugate entry written by the inverse at flat index 5.
pub open spec fn cof5(m: Mat4) -> int {
    sat(triple(md(m, 0), md(m, 10), md(m, 15)) - triple(md(m, 0), md(m, 11), md(m, 14)) - triple(md(m, 8), md(m, 2), md(m, 15)) + triple(md(m, 8), md(m, 3), md(m, 14)) + triple(md(m, 12), md(m, 2), md(m, 11)) - triple(md(m, 12), md(m, 3), md(m, 10)))
}

/// The adjugate entry written by the inverse at flat index 6.
pub open spec fn cof6(m: Mat4) -> int {
    sat(- triple(md(m, 0), md(m, 6), md(m, 15)) + triple(md(m, 0), md(m, 7), md(m, 14)) + triple(md(m, 4), md(m, 2), md(m, 15)) - triple(md(m, 4), md(m, 3), md(m, 14)) - triple(md(m, 12), md(m, 2), md(m, 7)) + triple(md(m, 12), md(m, 3), md(m, 6)))
}

/// The adjugate entry written by the inverse at flat index 7.
pub open spec fn cof7(m: Mat4) -> int {
    sat(triple(md(m, 0), md(m, 6), md(m, 11)) - triple(md(m, 0), md(m, 7), md(m, 10)) - triple(md(m, 4), md(m, 2), md(m, 11)) + triple(md(m, 4), md(m, 3), md(m, 10)) + triple(md(m, 8), md(m, 2), md(m, 7)) - triple(md(m, 8), md(m, 3), md(m, 6)))
}

/// The adjugate entry written by the inverse at flat index 8.
pub open spec fn cof8(m: Mat4) -> int {
    sat(triple(md(m, 4), md(m, 9), md(m, 15)) - triple(md(m, 4), md(m, 11), md(m, 13)) - triple(md(m, 8), md(m, 5), md(m, 15)) + triple(md(m, 8), md(m, 7), md(m, 13)) + triple(md(m, 12), md(m, 5), md(m, 11)) - triple(md(m, 12), md(m, 7), md(m, 9)))
}

/// The adjugate entry written by the inverse at flat index 9.
pub open spec fn cof9(m: Mat4) -> int {
    sat(- triple(md(m, 0), md(m, 9), md(m, 15)) + triple(md(m, 0), md(m, 11), md(m, 13)) + triple(md(m, 8), md(m, 1), md(m, 15)) - triple(md(m, 8), md(m, 3), md(m, 13)) - triple(md(m, 12), md(m, 1), md(m, 11)) + triple(md(m, 12), md(m, 3), md(m, 9)))
}

/// The adjugate entry written by the inverse at flat index 10.
pub open spec fn cof10(m: Mat4) -> int {
    sat(triple(md(m, 0), md(m, 5), md(m, 15)) - triple(md(m, 0), md(m, 7), md(m, 13)) - triple(md(m, 4), md(m, 1), md(m, 15)) + triple(md(m, 4), md(m, 3), md(m, 13)) + triple(md(m, 12), md(m, 1), md(m, 7)) - triple(md(m, 12), md(m, 3), md(m, 5)))
}

/// The adjugate entry written by the inverse at flat index 11.
pub open spec fn cof11(m: Mat4) -> int {
    sat(- triple(md(m, 0), md(m, 5), md(m, 11)) + triple(md(m, 0), md(m, 7), md(m, 9)) + triple(md(m, 4), md(m, 1), md(m, 11)) - triple(md(m, 4), md(m, 3), md(m, 9)) - triple(md(m, 8), md(m, 1), md(m, 7)) + triple(md(m, 8), md(m, 3), md(m, 5)))
}

/// The adjugate entry written by the inverse at flat index 12.
pub open spec fn cof12(m: Mat4) -> int {
    sat(- triple(md(m, 4), md(m, 9), md(m, 14)) + triple(md(m, 4), md(m, 10), md(m, 13)) + triple(md(m, 8), md(m, 5), md(m, 14)) - triple(md(m, 8), md(m, 6), md(m, 13)) - triple(md(m, 12), md(m, 5), md(m, 10)) + triple(md(m, 12), md(m, 6), md(m, 9)))
}

/// The adjugate entry written by the inverse at flat index 13.
pub open spec fn cof13(m: Mat4) -> int {
    sat(triple(md(m, 0), md(m, 9), md(m, 14)) - triple(md(m, 0), md(m, 10), md(m, 13)) - triple(md(m, 8), md(m, 1), md(m, 14)) + triple(md(m, 8), md(m, 2), md(m, 13)) + triple(md(m, 12), md(m, 1), md(m, 10)) - triple(md(m, 12), md(m, 2), md(m, 9)))
}

/// The adjugate entry written by the inverse at flat index 14.
pub open spec fn cof14(m: Mat4) -> int {
    sat(- triple(md(m, 0), md(m, 5), md(m, 14)) + triple(md(m, 0), md(m, 6), md(m, 13)) + triple(md(m, 4), md(m, 1), md(m, 14)) - triple(md(m, 4), md(m, 2), md(m, 13)) - triple(md(m, 12), md(m, 1), md(m, 6)) + triple(md(m, 12), md(m, 2), md(m, 5)))
}

/// The adjugate entry written by the inverse at flat index 15.
pub open spec fn cof15(m: Mat4) -> int {
    sat(triple(md(m, 0), md(m, 5), md(m, 10)) - triple(md(m, 0), md(m, 6), md(m, 9)) - triple(md(m, 4), md(m, 1), md(m, 10)) + triple(md(m, 4), md(m, 2), md(m, 9)) + triple(md(m, 8), md(m, 1), md(m, 6)) - triple(md(m, 8), md(m, 2), md(m, 5)))
}

/// The adjugate entry at flat index j.
pub open spec fn cof(m: Mat4, j: int) -> int {
    if j == 0 { cof0(m) }
    else if j == 1 { cof1(m) }
    else if j == 2 { cof2(m) }
    else if j == 3 { cof3(m) }
    else if j == 4 { cof4(m) }
    else if j == 5 { cof5(m) }
    else if j == 6 { cof6(m) }
    else if j == 7 { cof7(m) }
    else if j == 8 { cof8(m) }
    else if j == 9 { cof9(m) }
    else if j == 10 { cof10(m) }
    else if j == 11 { cof11(m) }
    else if j == 12 { cof12(m) }
    else if j == 13 { cof13(m) }
    else if j == 14 { cof14(m) }
    else { cof15(m) }
}

/// The determinant as the inverse computes it: the first row against its
/// adjugate column, each product rounded, the sum saturated.
pub open spec fn det_spec(m: Mat4) -> int {
    sat(
        fx_mul_spec(md(m, 0), cof0(m)) + fx_mul_spec(md(m, 1), cof4(m)) + fx_mul_spec(
            md(m, 2),
            cof8(m),
        ) + fx_mul_spec(md(m, 3), cof12(m)),
    )
}

/// A product of three scalars, rounded pairwise left to right.
fn t3e(a: i64, b: i64, c: i64) -> (r: i64)
    ensures
        r as int == triple(a as int, b as int, c as int),
{
    fx_mul(fx_mul(a, b), c)
}

impl Mat4 {
    /// The all-zero transform.
    pub fn new() -> (r: Self)
        ensures
            forall|j: int| 0 <= j < 16 ==> r.d@[j] == 0i64,
    {
        Mat4 {
            d: [
                0i64, 0i64, 0i64, 0i64,
                0i64, 0i64, 0i64, 0i64,
                0i64, 0i64, 0i64, 0i64,
                0i64, 0i64, 0i64, 0i64,
            ],
        }
    }

    /// The identity transform.
    pub fn i() -> (r: Self)
        ensures
            r.d@ == id_seq(),
    {
        let r = Mat4 {
            d: [
                FX_ONE, 0i64, 0i64, 0i64,
                0i64, FX_ONE, 0i64, 0i64,
                0i64, 0i64, FX_ONE, 0i64,
                0i64, 0i64, 0i64, FX_ONE,
            ],
        };
        proof {
            assert(r.d@ =~= id_seq());
        }
        r
    }

    /// Pack an orthonormal basis and a position into a camera transform.
    pub fn camera(fwd: &Vec4, right: &Vec4, up: &Vec4, pos: &Vec4) -> (r: Self)
        ensures
            r.d@ == camera_seq(*fwd, *right, *up, *pos),
    {
        let r = Mat4 {
            d: [
                right.x, up.x, fwd.x, pos.x,
                right.y, up.y, fwd.y, pos.y,
                right.z, up.z, fwd.z, pos.z,
                0i64, 0i64, 0i64, FX_ONE,
            ],
        };
        proof {
            assert(r.d@ =~= camera_seq(*fwd, *right, *up, *pos));
        }
        r
    }

    /// Build the camera transform looking from `position` at `look_at`.
    pub fn look(position: &Vec4, look_at: &Vec4) -> (r: Self)
        ensures
            r.d@ == look_seq(*position, *look_at),
    {
        let direction = look_at.sub(position).normalized();
        let temp_up = Vec4::direction(0, FX_ONE, 0);
        let right = temp_up.cross_product(&direction).normalized();
        let up = direction.cross_product(&right).normalized();
        Mat4::camera(&direction, &right, &up, position)
    }

    /// The translation transform moving a point by `translation`.
    pub fn translation(translation: &Vec4) -> (r: Self)
        ensures
            r.d@ == translation_seq(*translation),
    {
        let r = Mat4 {
            d: [
                FX_ONE, 0i64, 0i64, translation.x,
                0i64, FX_ONE, 0i64, translation.y,
                0i64, 0i64, FX_ONE, translation.z,
                0i64, 0i64, 0i64, FX_ONE,
            ],
        };
        proof {
            assert(r.d@ =~= translation_seq(*translation));
        }
        r
    }

    /// The axis-aligned scaling transform with the given factors.
    pub fn scale(factor: &Vec4) -> (r: Self)
        ensures
            r.d@ == scale_seq(*factor),
    {
        let r = Mat4 {
            d: [
                factor.x, 0i64, 0i64, 0i64,
                0i64, factor.y, 0i64, 0i64,
                0i64, 0i64, factor.z, 0i64,
                0i64, 0i64, 0i64, FX_ONE,
            ],
        };
        proof {
            assert(r.d@ =~= scale_seq(*factor));
        }
        r
    }

    /// One entry of the matrix product.
    fn mul_rc(&self, rhs: &Mat4, row: usize, col: usize) -> (r: i64)
        requires
            row < 4,
            col < 4,
        ensures
            r as int == mul_entry(*self, *rhs, row + 4 * col),
    {
        let m0 = fx_mul(self.d[row], rhs.d[4 * col]);
        let m1 = fx_mul(self.d[row + 4], rhs.d[4 * col + 1]);
        let m2 = fx_mul(self.d[row + 8], rhs.d[4 * col + 2]);
        let m3 = fx_mul(self.d[row + 12], rhs.d[4 * col + 3]);
        sat64((m0 as i128) + (m1 as i128) + (m2 as i128) + (m3 as i128))
    }

    /// The standard 4x4 matrix product.
    pub fn multiply(&self, rhs: &Mat4) -> (r: Mat4)
        ensures
            forall|j: int| 0 <= j < 16 ==> #[trigger] r.d@[j] as int == mul_entry(*self, *rhs, j),
    {
        Mat4 {
            d: [
                self.mul_rc(rhs, 0, 0), self.mul_rc(rhs, 1, 0), self.mul_rc(rhs, 2, 0), self.mul_rc(rhs, 3, 0),
                self.mul_rc(rhs, 0, 1), self.mul_rc(rhs, 1, 1), self.mul_rc(rhs, 2, 1), self.mul_rc(rhs, 3, 1),
                self.mul_rc(rhs, 0, 2), self.mul_rc(rhs, 1, 2), self.mul_rc(rhs, 2, 2), self.mul_rc(rhs, 3, 2),
                self.mul_rc(rhs, 0, 3), self.mul_rc(rhs, 1, 3), self.mul_rc(rhs, 2, 3), self.mul_rc(rhs, 3, 3),
            ],
        }
    }

    /// One component of the matrix-vector product.
    fn xf_row(&self, v: &Vec4, row: usize) -> (r: i64)
        requires
            row < 4,
        ensures
            r as int == xform_entry(*self, *v, row as int),
    {
        let m0 = fx_mul(self.d[4 * row], v.x);
        let m1 = fx_mul(self.d[4 * row + 1], v.y);
        let m2 = fx_mul(self.d[4 * row + 2], v.z);
        let m3 = fx_mul(self.d[4 * row + 3], v.w);
        sat64((m0 as i128) + (m1 as i128) + (m2 as i128) + (m3 as i128))
    }

    /// Apply the transform to a homogeneous vector taken as a column.
    pub fn transform(&self, v: &Vec4) -> (r: Vec4)
        ensures
            r == xform_spec(*self, *v),
    {
        Vec4 {
            x: self.xf_row(v, 0),
            y: self.xf_row(v, 1),
            z: self.xf_row(v, 2),
            w: self.xf_row(v, 3),
        }
    }

    /// The adjugate entry at flat index 0.
    fn cof0e(&self) -> (r: i64)
        ensures
            r as int == cof0(*self),
    {
        sat64((t3e(self.d[5], self.d[10], self.d[15]) as i128) - (t3e(self.d[5], self.d[11], self.d[14]) as i128) - (t3e(self.d[9], self.d[6], self.d[15]) as i128) + (t3e(self.d[9], self.d[7], self.d[14]) as i128) + (t3e(self.d[13], self.d[6], self.d[11]) as i128) - (t3e(self.d[13], self.d[7], self.d[10]) as i128))
    }

    /// The adjugate entry at flat index 1.
    fn cof1e(&self) -> (r: i64)
        ensures
            r as int == cof1(*self),
    {
        sat64(- (t3e(self.d[1], self.d[10], self.d[15]) as i128) + (t3e(self.d[1], self.d[11], self.d[14]) as i128) + (t3e(self.d[9], self.d[2], self.d[15]) as i128) - (t3e(self.d[9], self.d[3], self.d[14]) as i128) - (t3e(self.d[13], self.d[2], self.d[11]) as i128) + (t3e(self.d[13], self.d[3], self.d[10]) as i128))
    }

    /// The adjugate entry at flat index 2.
    fn cof2e(&self) -> (r: i64)
        ensures
            r as int == cof2(*self),
    {
        sat64((t3e(self.d[1], self.d[6], self.d[15]) as i128) - (t3e(self.d[1], self.d[7], self.d[14]) as i128) - (t3e(self.d[5], self.d[2], self.d[15]) as i128) + (t3e(self.d[5], self.d[3], self.d[14]) as i128) + (t3e(self.d[13], self.d[2], self.d[7]) as i128) - (t3e(self.d[13], self.d[3], self.d[6]) as i128))
    }

    /// The adjugate entry at flat index 3.
    fn cof3e(&self) -> (r: i64)
        ensures
            r as int == cof3(*self),
    {
        sat64(- (t3e(self.d[1], self.d[6], self.d[11]) as i128) + (t3e(self.d[1], self.d[7], self.d[10]) as i128) + (t3e(self.d[5], self.d[2], self.d[11]) as i128) - (t3e(self.d[5], self.d[3], self.d[10]) as i128) - (t3e(self.d[9], self.d[2], self.d[7]) as i128) + (t3e(self.d[9], self.d[3], self.d[6]) as i128))
    }

    /// The adjugate entry at flat index 4.
    fn cof4e(&self) -> (r: i64)
        ensures
            r as int == cof4(*self),
    {
        sat64(- (t3e(self.d[4], self.d[10], self.d[15]) as i128) + (t3e(self.d[4], self.d[11], self.d[14]) as i128) + (t3e(self.d[8], self.d[6], self.d[15]) as i128) - (t3e(self.d[8], self.d[7], self.d[14]) as i128) - (t3e(self.d[12], self.d[6], self.d[11]) as i128) + (t3e(self.d[12], self.d[7], self.d[10]) as i128))
    }

    /// The adjugate entry at flat index 5.
    fn cof5e(&self) -> (r: i64)
        ensures
            r as int == cof5(*self),
    {
        sat64((t3e(self.d[0], self.d[10], self.d[15]) as i128) - (t3e(self.d[0], self.d[11], self.d[14]) as i128) - (t3e(self.d[8], self.d[2], self.d[15]) as i128) + (t3e(self.d[8], self.d[3], self.d[14]) as i128) + (t3e(self.d[12], self.d[2], self.d[11]) as i128) - (t3e(self.d[12], self.d[3], self.d[10]) as i128))
    }

    /// The adjugate entry at flat index 6.
    fn cof6e(&self) -> (r: i64)
        ensures
            r as int == cof6(*self),
    {
        sat64(- (t3e(self.d[0], self.d[6], self.d[15]) as i128) + (t3e(self.d[0], self.d[7], self.d[14]) as i128) + (t3e(self.d[4], self.d[2], self.d[15]) as i128) - (t3e(self.d[4], self.d[3], self.d[14]) as i128) - (t3e(self.d[12], self.d[2], self.d[7]) as i128) + (t3e(self.d[12], self.d[3], self.d[6]) as i128))
    }

    /// The adjugate entry at flat index 7.
    fn cof7e(&self) -> (r: i64)
        ensures
            r as int == cof7(*self),
    {
        sat64((t3e(self.d[0], self.d[6], self.d[11]) as i128) - (t3e(self.d[0], self.d[7], self.d[10]) as i128) - (t3e(self.d[4], self.d[2], self.d[11]) as i128) + (t3e(self.d[4], self.d[3], self.d[10]) as i128) + (t3e(self.d[8], self.d[2], self.d[7]) as i128) - (t3e(self.d[8], self.d[3], self.d[6]) as i128))
    }

    /// The adjugate entry at flat index 8.
    fn cof8e(&self) -> (r: i64)
        ensures
            r as int == cof8(*self),
    {
        sat64((t3e(self.d[4], self.d[9], self.d[15]) as i128) - (t3e(self.d[4], self.d[11], self.d[13]) as i128) - (t3e(self.d[8], self.d[5], self.d[15]) as i128) + (t3e(self.d[8], self.d[7], self.d[13]) as i128) + (t3e(self.d[12], self.d[5], self.d[11]) as i128) - (t3e(self.d[12], self.d[7], self.d[9]) as i128))
    }

    /// The adjugate entry at flat index 9.
    fn cof9e(&self) -> (r: i64)
        ensures
            r as int == cof9(*self),
    {
        sat64(- (t3e(self.d[0], self.d[9], self.d[15]) as i128) + (t3e(self.d[0], self.d[11], self.d[13]) as i128) + (t3e(self.d[8], self.d[1], self.d[15]) as i128) - (t3e(self.d[8], self.d[3], self.d[13]) as i128) - (t3e(self.d[12], self.d[1], self.d[11]) as i128) + (t3e(self.d[12], self.d[3], self.d[9]) as i128))
    }

    /// The adjugate entry at flat index 10.
    fn cof10e(&self) -> (r: i64)
        ensures
            r as int == cof10(*self),
    {
        sat64((t3e(self.d[0], self.d[5], self.d[15]) as i128) - (t3e(self.d[0], self.d[7], self.d[13]) as i128) - (t3e(self.d[4], self.d[1], self.d[15]) as i128) + (t3e(self.d[4], self.d[3], self.d[13]) as i128) + (t3e(self.d[12], self.d[1], self.d[7]) as i128) - (t3e(self.d[12], self.d[3], self.d[5]) as i128))
    }

    /// The adjugate entry at flat index 11.
    fn cof11e(&self) -> (r: i64)
        ensures
            r as int == cof11(*self),
    {
        sat64(- (t3e(self.d[0], self.d[5], self.d[11]) as i128) + (t3e(self.d[0], self.d[7], self.d[9]) as i128) + (t3e(self.d[4], self.d[1], self.d[11]) as i128) - (t3e(self.d[4], self.d[3], self.d[9]) as i128) - (t3e(self.d[8], self.d[1], self.d[7]) as i128) + (t3e(self.d[8], self.d[3], self.d[5]) as i128))
    }

    /// The adjugate entry at flat index 12.
    fn cof12e(&self) -> (r: i64)
        ensures
            r as int == cof12(*self),
    {
        sat64(- (t3e(self.d[4], self.d[9], self.d[14]) as i128) + (t3e(self.d[4], self.d[10], self.d[13]) as i128) + (t3e(self.d[8], self.d[5], self.d[14]) as i128) - (t3e(self.d[8], self.d[6], self.d[13]) as i128) - (t3e(self.d[12], self.d[5], self.d[10]) as i128) + (t3e(self.d[12], self.d[6], self.d[9]) as i128))
    }

    /// The adjugate entry at flat index 13.
    fn cof13e(&self) -> (r: i64)
        ensures
            r as int == cof13(*self),
    {
        sat64((t3e(self.d[0], self.d[9], self.d[14]) as i128) - (t3e(self.d[0], self.d[10], self.d[13]) as i128) - (t3e(self.d[8], self.d[1], self.d[14]) as i128) + (t3e(self.d[8], self.d[2], self.d[13]) as i128) + (t3e(self.d[12], self.d[1], self.d[10]) as i128) - (t3e(self.d[12], self.d[2], self.d[9]) as i128))
    }

    /// The adjugate entry at flat index 14.
    fn cof14e(&self) -> (r: i64)
        ensures
            r as int == cof14(*self),
    {
        sat64(- (t3e(self.d[0], self.d[5], self.d[14]) as i128) + (t3e(self.d[0], self.d[6], self.d[13]) as i128) + (t3e(self.d[4], self.d[1], self.d[14]) as i128) - (t3e(self.d[4], self.d[2], self.d[13]) as i128) - (t3e(self.d[12], self.d[1], self.d[6]) as i128) + (t3e(self.d[12], self.d[2], self.d[5]) as i128))
    }

    /// The adjugate entry at flat index 15.
    fn cof15e(&self) -> (r: i64)
        ensures
            r as int == cof15(*self),
    {
        sat64((t3e(self.d[0], self.d[5], self.d[10]) as i128) - (t3e(self.d[0], self.d[6], self.d[9]) as i128) - (t3e(self.d[4], self.d[1], self.d[10]) as i128) + (t3e(self.d[4], self.d[2], self.d[9]) as i128) + (t3e(self.d[8], self.d[1], self.d[6]) as i128) - (t3e(self.d[8], self.d[2], self.d[5]) as i128))
    }

    /// The general inverse by the adjugate/cofactor method. A zero
    /// determinant yields the identity transform as the documented
    /// degenerate fallback, never a failure.
    #[verifier::rlimit(100)]
    pub fn inverse(&self) -> (r: Self)
        ensures
            det_spec(*self) == 0 ==> r.d@ == id_seq(),
            det_spec(*self) != 0 ==> forall|j: int|
                0 <= j < 16 ==> #[trigger] r.d@[j] as int == fx_div_spec(
                    cof(*self, j),
                    det_spec(*self),
                ),
    {
        let c0 = self.cof0e();
        let c1 = self.cof1e();
        let c2 = self.cof2e();
        let c3 = self.cof3e();
        let c4 = self.cof4e();
        let c5 = self.cof5e();
        let c6 = self.cof6e();
        let c7 = self.cof7e();
        let c8 = self.cof8e();
        let c9 = self.cof9e();
        let c10 = self.cof10e();
        let c11 = self.cof11e();
        let c12 = self.cof12e();
        let c13 = self.cof13e();
        let c14 = self.cof14e();
        let c15 = self.cof15e();
        let m0 = self.d[0];
        let m1 = self.d[1];
        let m2 = self.d[2];
        let m3 = self.d[3];
        let det = sat64(
            (fx_mul(m0, c0) as i128) + (fx_mul(m1, c4) as i128) + (fx_mul(m2, c8) as i128) + (
            fx_mul(m3, c12) as i128),
        );
        if det == 0 {
            return Mat4::i();
        }
        Mat4 {
            d: [
                fx_div(c0, det), fx_div(c1, det), fx_div(c2, det), fx_div(c3, det),
                fx_div(c4, det), fx_div(c5, det), fx_div(c6, det), fx_div(c7, det),
                fx_div(c8, det), fx_div(c9, det), fx_div(c10, det), fx_div(c11, det),
                fx_div(c12, det), fx_div(c13, det), fx_div(c14, det), fx_div(c15, det),
            ],
        }
    }

    /// Read the entry at (col, row); out-of-range indices are programmer
    /// errors and are ruled out by the precondition.
    pub fn entry(&self, col: usize, row: usize) -> (r: i64)
        requires
            col < 4,
            row < 4,
        ensures
            r as int == md(*self, col + 4 * row),
    {
        self.d[col + 4 * row]
    }

    /// Read the entry at a flat index.
    pub fn entry_flat(&self, index: usize) -> (r: i64)
        requires
            index < 16,
        ensures
            r as int == md(*self, index as int),
    {
        self.d[index]
    }

    /// Replace the entry at (col, row); out-of-range indices are programmer
    /// errors and are ruled out by the precondition.
    pub fn set_entry(&mut self, col: usize, row: usize, value: i64)
        requires
            col < 4,
            row < 4,
        ensures
            final(self).d@ == old(self).d@.update(col + 4 * row, value),
    {
        self.d[col + 4 * row] = value;
    }

    /// Replace the entry at a flat index.
    pub fn set_entry_flat(&mut self, index: usize, value: i64)
        requires
            index < 16,
        ensures
            final(self).d@ == old(self).d@.update(index as int, value),
    {
        self.d[index] = value;
    }
}

impl Default for Mat4 {
    /// The default transform is the all-zero transform.
    fn default() -> (r: Self)
        ensures
            forall|j: int| 0 <= j < 16 ==> r.d@[j] == 0i64,
    {
        Mat4::new()
    }
}

/// Whether every entry of the matrix is a representable scalar.
pub open spec fn mat_wf(m: Mat4) -> bool {
    forall|j: int| 0 <= j < 16 ==> FX_MIN <= #[trigger] m.d@[j] <= FX_MAX
}

/// The identity transform is a left unit of the matrix product: against a
/// matrix of representable entries, every entry of identity * m is the
/// corresponding entry of m.
pub proof fn lemma_multiply_identity(ident: Mat4, m: Mat4)
    requires
        ident.d@ == id_seq(),
        mat_wf(m),
    ensures
        forall|j: int| 0 <= j < 16 ==> #[trigger] mul_entry(ident, m, j) == md(m, j),
{
    assert forall|j: int| 0 <= j < 16 implies #[trigger] mul_entry(ident, m, j) == md(m, j) by {
        lemma_tdiv_mul_cancel(md(m, j), FX_ONE as int);
        assert(FX_MIN <= m.d@[j] <= FX_MAX);
        assert(fx_mul_spec(FX_ONE as int, md(m, j)) == md(m, j));
        if j == 0 {
            assert(md(ident, 0) == FX_ONE as int);
            assert(md(ident, 4) == 0);
            assert(md(ident, 8) == 0);
            assert(md(ident, 12) == 0);
            assert(fx_mul_spec(0, md(m, 1)) == 0);
            assert(fx_mul_spec(0, md(m, 2)) == 0);
            assert(fx_mul_spec(0, md(m, 3)) == 0);
            assert(fx_mul_spec(FX_ONE as int, md(m, 0)) == md(m, 0));
            assert(sat(md(m, 0) + 0 + 0 + 0) == md(m, 0));
            assert(mul_entry(ident, m, 0) == sat(fx_mul_spec(md(ident, 0), md(m, 0)) + fx_mul_spec(
                md(ident, 4),
                md(m, 1),
            ) + fx_mul_spec(md(ident, 8), md(m, 2)) + fx_mul_spec(md(ident, 12), md(m, 3))));
            assert(mul_entry(ident, m, 0) == md(m, 0));
        }
        if j == 1 {
            assert(mul_entry(ident, m, 1) == md(m, 1));
        }
        if j == 2 {
            assert(mul_entry(ident, m, 2) == md(m, 2));
        }
        if j == 3 {
            assert(mul_entry(ident, m, 3) == md(m, 3));
        }
        if j == 4 {
            assert(mul_entry(ident, m, 4) == md(m, 4));
        }
        if j == 5 {
            assert(mul_entry(ident, m, 5) == md(m, 5));
        }
        if j == 6 {
            assert(mul_entry(ident, m, 6) == md(m, 6));
        }
        if j == 7 {
            assert(mul_entry(ident, m, 7) == md(m, 7));
        }
        if j == 8 {
            assert(mul_entry(ident, m, 8) == md(m, 8));
        }
        if j == 9 {
            assert(mul_entry(ident, m, 9) == md(m, 9));
        }
        if j == 10 {
            assert(mul_entry(ident, m, 10) == md(m, 10));
        }
        if j == 11 {
            assert(mul_entry(ident, m, 11) == md(m, 11));
        }
        if j == 12 {
            assert(mul_entry(ident, m, 12) == md(m, 12));
        }
        if j == 13 {
            assert(mul_entry(ident, m, 13) == md(m, 13));
        }
        if j == 14 {
            assert(mul_entry(ident, m, 14) == md(m, 14));
        }
        if j == 15 {
            assert(mul_entry(ident, m, 15) == md(m, 15));
        }
    }
}

/// The identity transform fixes every homogeneous vector of representable
/// components.
pub proof fn lemma_transform_identity(ident: Mat4, v: Vec4)
    requires
        ident.d@ == id_seq(),
        vec_wf(v),
    ensures
        xform_spec(ident, v) == v,
{
    lemma_tdiv_mul_cancel(v.x as int, FX_ONE as int);
    lemma_tdiv_mul_cancel(v.y as int, FX_ONE as int);
    lemma_tdiv_mul_cancel(v.z as int, FX_ONE as int);
    lemma_tdiv_mul_cancel(v.w as int, FX_ONE as int);
}

} // verus!
