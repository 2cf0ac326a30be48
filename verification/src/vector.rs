//! Homogeneous 4-component vectors over the fixed-point scalar. The fourth
//! component tags a value as a point (`w == FX_ONE`) or a direction
//! (`w == 0`); subtraction and the cross product force the direction tag,
//! while `add` keeps the left operand's tag unchanged.

use vstd::prelude::*;

use crate::fixed::{
    fx_add, fx_add_spec, fx_div, fx_div_spec, fx_abs, fx_abs_spec, fx_mul, fx_mul_spec, fx_neg,
    fx_neg_spec, fx_sqrt, fx_sqrt_spec, fx_sub, fx_sub_spec, sat, sat64, FX_ONE,
};

verus! {

/// A homogeneous vector: x, y, z spatial components and the w tag.
#[derive(Clone, Copy, PartialEq, Eq, Structural, Debug)]
pub struct Vec4 {
    pub x: i64,
    pub y: i64,
    pub z: i64,
    pub w: i64,
}

/// The dot product over the spatial components: the saturated sum of the
/// three rounded products; w never participates.
pub open spec fn dot_spec(a: Vec4, b: Vec4) -> int {
    sat(
        fx_mul_spec(a.x as int, b.x as int) + fx_mul_spec(a.y as int, b.y as int) + fx_mul_spec(
            a.z as int,
            b.z as int,
        ),
    )
}

pub open spec fn cross_x_spec(a: Vec4, b: Vec4) -> int {
    fx_sub_spec(fx_mul_spec(a.y as int, b.z as int), fx_mul_spec(a.z as int, b.y as int))
}

pub open spec fn cross_y_spec(a: Vec4, b: Vec4) -> int {
    fx_sub_spec(fx_mul_spec(a.z as int, b.x as int), fx_mul_spec(a.x as int, b.z as int))
}

pub open spec fn cross_z_spec(a: Vec4, b: Vec4) -> int {
    fx_sub_spec(fx_mul_spec(a.x as int, b.y as int), fx_mul_spec(a.y as int, b.x as int))
}

/// The magnitude: square root of the self dot product.
pub open spec fn mag_spec(v: Vec4) -> int {
    fx_sqrt_spec(dot_spec(v, v))
}

/// One spatial or tag component, selected by index 0..=3.
pub open spec fn comp_spec(v: Vec4, i: int) -> int {
    if i == 0 {
        v.x as int
    } else if i == 1 {
        v.y as int
    } else if i == 2 {
        v.z as int
    } else {
        v.w as int
    }
}


/// Component-wise sum as a value; w from the left operand.
pub open spec fn vadd_spec(a: Vec4, b: Vec4) -> Vec4 {
    Vec4 {
        x: fx_add_spec(a.x as int, b.x as int) as i64,
        y: fx_add_spec(a.y as int, b.y as int) as i64,
        z: fx_add_spec(a.z as int, b.z as int) as i64,
        w: a.w,
    }
}

/// Component-wise difference as a value; tagged as a direction.
pub open spec fn vsub_spec(a: Vec4, b: Vec4) -> Vec4 {
    Vec4 {
        x: fx_sub_spec(a.x as int, b.x as int) as i64,
        y: fx_sub_spec(a.y as int, b.y as int) as i64,
        z: fx_sub_spec(a.z as int, b.z as int) as i64,
        w: 0i64,
    }
}

/// The cross product as a value; tagged as a direction.
pub open spec fn vcross_spec(a: Vec4, b: Vec4) -> Vec4 {
    Vec4 {
        x: cross_x_spec(a, b) as i64,
        y: cross_y_spec(a, b) as i64,
        z: cross_z_spec(a, b) as i64,
        w: 0i64,
    }
}

/// The spatial components scaled by k; w preserved.
pub open spec fn vscale_spec(a: Vec4, k: int) -> Vec4 {
    Vec4 {
        x: fx_mul_spec(a.x as int, k) as i64,
        y: fx_mul_spec(a.y as int, k) as i64,
        z: fx_mul_spec(a.z as int, k) as i64,
        w: a.w,
    }
}

/// Component-wise absolute value; w preserved.
pub open spec fn vabs_spec(a: Vec4) -> Vec4 {
    Vec4 {
        x: fx_abs_spec(a.x as int) as i64,
        y: fx_abs_spec(a.y as int) as i64,
        z: fx_abs_spec(a.z as int) as i64,
        w: a.w,
    }
}

/// The spatial components negated; w preserved.
pub open spec fn vneg_spec(a: Vec4) -> Vec4 {
    Vec4 {
        x: fx_neg_spec(a.x as int) as i64,
        y: fx_neg_spec(a.y as int) as i64,
        z: fx_neg_spec(a.z as int) as i64,
        w: a.w,
    }
}

/// The vector scaled to unit length as a value; w preserved.
pub open spec fn vnorm_spec(a: Vec4) -> Vec4 {
    Vec4 {
        x: fx_div_spec(a.x as int, mag_spec(a)) as i64,
        y: fx_div_spec(a.y as int, mag_spec(a)) as i64,
        z: fx_div_spec(a.z as int, mag_spec(a)) as i64,
        w: a.w,
    }
}

impl Vec4 {
    /// A point: w is fixed to one.
    pub fn position(x: i64, y: i64, z: i64) -> (r: Vec4)
        ensures
            r == (Vec4 { x, y, z, w: FX_ONE }),
    {
        Vec4 { x, y, z, w: FX_ONE }
    }

    /// A free direction: w is fixed to zero.
    pub fn direction(x: i64, y: i64, z: i64) -> (r: Vec4)
        ensures
            r == (Vec4 { x, y, z, w: 0i64 }),
    {
        Vec4 { x, y, z, w: 0 }
    }

    /// Reinterpret as a direction: the components stay, w becomes zero.
    pub fn as_direction(&self) -> (r: Vec4)
        ensures
            r == (Vec4 { x: self.x, y: self.y, z: self.z, w: 0i64 }),
    {
        Vec4 { x: self.x, y: self.y, z: self.z, w: 0 }
    }

    /// Component-wise sum; w is taken from the left operand.
    pub fn add(&self, other: &Vec4) -> (r: Vec4)
        ensures
            r == vadd_spec(*self, *other),
    {
        Vec4 {
            x: fx_add(self.x, other.x),
            y: fx_add(self.y, other.y),
            z: fx_add(self.z, other.z),
            w: self.w,
        }
    }

    /// Component-wise difference; the result is tagged as a direction.
    pub fn sub(&self, other: &Vec4) -> (r: Vec4)
        ensures
            r == vsub_spec(*self, *other),
    {
        Vec4 {
            x: fx_sub(self.x, other.x),
            y: fx_sub(self.y, other.y),
            z: fx_sub(self.z, other.z),
            w: 0,
        }
    }

    /// The dot product of the spatial components.
    pub fn dot_product(&self, other: &Vec4) -> (r: i64)
        ensures
            r as int == dot_spec(*self, *other),
    {
        let m1 = fx_mul(self.x, other.x);
        let m2 = fx_mul(self.y, other.y);
        let m3 = fx_mul(self.z, other.z);
        sat64((m1 as i128) + (m2 as i128) + (m3 as i128))
    }

    /// The cross product; the result is tagged as a direction.
    pub fn cross_product(&self, other: &Vec4) -> (r: Vec4)
        ensures
            r == vcross_spec(*self, *other),
    {
        Vec4 {
            x: fx_sub(fx_mul(self.y, other.z), fx_mul(self.z, other.y)),
            y: fx_sub(fx_mul(self.z, other.x), fx_mul(self.x, other.z)),
            z: fx_sub(fx_mul(self.x, other.y), fx_mul(self.y, other.x)),
            w: 0,
        }
    }

    /// Scale the spatial components by a scalar; w is preserved.
    pub fn scale(&self, other: i64) -> (r: Vec4)
        ensures
            r == vscale_spec(*self, other as int),
    {
        Vec4 {
            x: fx_mul(self.x, other),
            y: fx_mul(self.y, other),
            z: fx_mul(self.z, other),
            w: self.w,
        }
    }

    /// Component-wise absolute value; w is preserved.
    pub fn abs(&self) -> (r: Vec4)
        ensures
            r == vabs_spec(*self),
    {
        Vec4 { x: fx_abs(self.x), y: fx_abs(self.y), z: fx_abs(self.z), w: self.w }
    }

    /// The magnitude (length) of the spatial components.
    pub fn mag(&self) -> (r: i64)
        ensures
            r as int == mag_spec(*self),
            r >= 0,
    {
        let d = self.dot_product(self);
        fx_sqrt(d)
    }

    /// The vector scaled to unit length, w preserved. A zero-length vector
    /// divides by zero, which saturates component-wise (the fixed-point
    /// counterpart of the propagating non-finite result).
    pub fn normalized(&self) -> (r: Vec4)
        ensures
            r == vnorm_spec(*self),
    {
        let m = self.mag();
        Vec4 {
            x: fx_div(self.x, m),
            y: fx_div(self.y, m),
            z: fx_div(self.z, m),
            w: self.w,
        }
    }

    /// The spatial components negated; w is preserved.
    pub fn reverse(&self) -> (r: Vec4)
        ensures
            r == vneg_spec(*self),
    {
        Vec4 { x: fx_neg(self.x), y: fx_neg(self.y), z: fx_neg(self.z), w: self.w }
    }

    /// Read one component by index; an out-of-range index is a programmer
    /// error and is ruled out by the precondition.
    pub fn comp(&self, index: usize) -> (r: i64)
        requires
            index < 4,
        ensures
            r as int == comp_spec(*self, index as int),
    {
        if index == 0 {
            self.x
        } else if index == 1 {
            self.y
        } else if index == 2 {
            self.z
        } else {
            self.w
        }
    }

    /// Replace one component by index; an out-of-range index is a programmer
    /// error and is ruled out by the precondition.
    pub fn set_comp(&mut self, index: usize, value: i64)
        requires
            index < 4,
        ensures
            comp_spec(*final(self), index as int) == value as int,
            forall|i: int| 0 <= i < 4 && i != index ==> comp_spec(*final(self), i) == comp_spec(*old(self), i),
    {
        if index == 0 {
            self.x = value;
        } else if index == 1 {
            self.y = value;
        } else if index == 2 {
            self.z = value;
        } else {
            self.w = value;
        }
    }
}

} // verus!

// The laws below speak of the exact integer model of the spatial part of a
// vector, a triple of unbounded integers, and of the fixed-point operations
// themselves.

use crate::fixed::{iabs, lemma_isqrt_unique, lemma_tdiv_mul_cancel, tdiv, FX_MAX};

verus! {

/// The exact dot product of two integer triples, before any rounding.
pub open spec fn dot3(a: (int, int, int), b: (int, int, int)) -> int {
    a.0 * b.0 + a.1 * b.1 + a.2 * b.2
}

/// The exact cross product of two integer triples, before any rounding.
pub open spec fn cross3(a: (int, int, int), b: (int, int, int)) -> (int, int, int) {
    (a.1 * b.2 - a.2 * b.1, a.2 * b.0 - a.0 * b.2, a.0 * b.1 - a.1 * b.0)
}

/// Rearrangements of a product of three factors.
proof fn lemma_mul_shuffle3(a: int, b: int, c: int)
    ensures
        a * (b * c) == b * (a * c),
        a * (b * c) == c * (b * a),
{
    vstd::arithmetic::mul::lemma_mul_is_associative(a, b, c);
    vstd::arithmetic::mul::lemma_mul_is_commutative(a, b);
    vstd::arithmetic::mul::lemma_mul_is_associative(b, a, c);
    vstd::arithmetic::mul::lemma_mul_is_commutative(a * b, c);
}

/// The first component of the vector triple product b x (a x b), written
/// out over the coordinates.
proof fn lemma_bab_x(ax: int, ay: int, az: int, bx: int, by: int, bz: int)
    ensures
        by * (ax * by - ay * bx) - bz * (az * bx - ax * bz) == ax * (bx * bx + by * by + bz * bz)
            - bx * (ax * bx + ay * by + az * bz),
{
    vstd::arithmetic::mul::lemma_mul_is_distributive_sub(by, ax * by, ay * bx);
    vstd::arithmetic::mul::lemma_mul_is_distributive_sub(bz, az * bx, ax * bz);
    lemma_mul_shuffle3(by, ax, by);
    lemma_mul_shuffle3(by, ay, bx);
    lemma_mul_shuffle3(bz, az, bx);
    lemma_mul_shuffle3(bz, ax, bz);
    lemma_mul_shuffle3(ax, bx, bx);
    vstd::arithmetic::mul::lemma_mul_is_distributive_add(ax, bx * bx + by * by, bz * bz);
    vstd::arithmetic::mul::lemma_mul_is_distributive_add(ax, bx * bx, by * by);
    vstd::arithmetic::mul::lemma_mul_is_distributive_add(bx, ax * bx + ay * by, az * bz);
    vstd::arithmetic::mul::lemma_mul_is_distributive_add(bx, ax * bx, ay * by);
}

/// The first component of the vector triple product (a x b) x a, written
/// out over the coordinates.
proof fn lemma_wa_x(ax: int, ay: int, az: int, bx: int, by: int, bz: int)
    ensures
        (az * bx - ax * bz) * az - (ax * by - ay * bx) * ay == bx * (ax * ax + ay * ay + az * az)
            - ax * (ax * bx + ay * by + az * bz),
{
    vstd::arithmetic::mul::lemma_mul_is_distributive_sub_other_way(az, az * bx, ax * bz);
    vstd::arithmetic::mul::lemma_mul_is_distributive_sub_other_way(ay, ax * by, ay * bx);
    vstd::arithmetic::mul::lemma_mul_is_commutative(az * bx, az);
    lemma_mul_shuffle3(az, az, bx);
    vstd::arithmetic::mul::lemma_mul_is_commutative(ax * bz, az);
    lemma_mul_shuffle3(az, ax, bz);
    vstd::arithmetic::mul::lemma_mul_is_commutative(ax * by, ay);
    lemma_mul_shuffle3(ay, ax, by);
    vstd::arithmetic::mul::lemma_mul_is_commutative(ay * bx, ay);
    lemma_mul_shuffle3(ay, ay, bx);
    lemma_mul_shuffle3(bx, ax, ax);
    vstd::arithmetic::mul::lemma_mul_is_distributive_add(bx, ax * ax + ay * ay, az * az);
    vstd::arithmetic::mul::lemma_mul_is_distributive_add(bx, ax * ax, ay * ay);
    vstd::arithmetic::mul::lemma_mul_is_distributive_add(ax, ax * bx + ay * by, az * bz);
    vstd::arithmetic::mul::lemma_mul_is_distributive_add(ax, ax * bx, ay * by);
}

/// Right-handed closure of the cross product on the exact integer model:
/// for orthogonal u and v of equal squared length s, with w = u x v,
/// crossing v with w recovers s * u and crossing w with u recovers s * v.
/// (The executable cross product computes exactly this model with each
/// product rounded by `fx_mul_spec`; on unit axis vectors, where the
/// products are exact multiples of `FX_ONE`, the rounding vanishes.)
pub proof fn lemma_cross_right_handed(u: (int, int, int), v: (int, int, int), s: int)
    requires
        dot3(u, u) == s,
        dot3(v, v) == s,
        dot3(u, v) == 0,
    ensures
        cross3(v, cross3(u, v)) == (s * u.0, s * u.1, s * u.2),
        cross3(cross3(u, v), u) == (s * v.0, s * v.1, s * v.2),
{
    let ux = u.0;
    let uy = u.1;
    let uz = u.2;
    let vx = v.0;
    let vy = v.1;
    let vz = v.2;
    let wx = uy * vz - uz * vy;
    let wy = uz * vx - ux * vz;
    let wz = ux * vy - uy * vx;
    assert(cross3(u, v) == (wx, wy, wz));
    lemma_bab_x(ux, uy, uz, vx, vy, vz);
    lemma_bab_x(uy, uz, ux, vy, vz, vx);
    lemma_bab_x(uz, ux, uy, vz, vx, vy);
    lemma_wa_x(ux, uy, uz, vx, vy, vz);
    lemma_wa_x(uy, uz, ux, vy, vz, vx);
    lemma_wa_x(uz, ux, uy, vz, vx, vy);
    vstd::arithmetic::mul::lemma_mul_is_commutative(ux, s);
    vstd::arithmetic::mul::lemma_mul_is_commutative(uy, s);
    vstd::arithmetic::mul::lemma_mul_is_commutative(uz, s);
    vstd::arithmetic::mul::lemma_mul_is_commutative(vx, s);
    vstd::arithmetic::mul::lemma_mul_is_commutative(vy, s);
    vstd::arithmetic::mul::lemma_mul_is_commutative(vz, s);
    assert(vy * wz - vz * wy == s * ux);
    assert(vz * wx - vx * wz == s * uy);
    assert(vx * wy - vy * wx == s * uz);
    assert(wy * uz - wz * uy == s * vx);
    assert(wz * ux - wx * uz == s * vy);
    assert(wx * uy - wy * ux == s * vz);
}

/// For nonnegative a and positive b, a common positive factor of dividend
/// and divisor cancels out of the quotient.
proof fn lemma_div_common_factor_nonneg(c: int, a: int, b: int)
    requires
        c > 0,
        b > 0,
        a >= 0,
    ensures
        (c * a) / (c * b) == a / b,
{
    let d = a / b;
    let e = a % b;
    vstd::arithmetic::div_mod::lemma_fundamental_div_mod(a, b);
    vstd::arithmetic::div_mod::lemma_mod_bound(a, b);
    assert(d >= 0) by (nonlinear_arith)
        requires
            d == a / b,
            a >= 0,
            b > 0,
    ;
    assert(c * a == d * (c * b) + c * e) by (nonlinear_arith)
        requires
            a == b * d + e,
    ;
    assert((d * (c * b) + c * e) / (c * b) == d) by (nonlinear_arith)
        requires
            d >= 0,
            0 <= e < b,
            c > 0,
    ;
}

/// A common positive factor of dividend and divisor cancels out of the
/// truncating division.
pub proof fn lemma_tdiv_common_factor(c: int, a: int, b: int)
    requires
        c > 0,
        b > 0,
    ensures
        tdiv(c * a, c * b) == tdiv(a, b),
{
    assert(c * b > 0) by (nonlinear_arith)
        requires
            c > 0 && b > 0,
    ;
    if a >= 0 {
        assert(c * a >= 0) by (nonlinear_arith)
            requires
                c > 0 && a >= 0,
        ;
        lemma_div_common_factor_nonneg(c, a, b);
        assert(iabs(c * a) == c * a && iabs(c * b) == c * b);
    } else {
        let a2 = -a;
        assert(c * a < 0 && iabs(c * a) == c * a2) by (nonlinear_arith)
            requires
                c > 0 && a < 0 && a2 == -a,
        ;
        lemma_div_common_factor_nonneg(c, a2, b);
        assert(iabs(c * b) == c * b);
    }
}

/// Whether every component of the vector is a representable scalar.
pub open spec fn vec_wf(v: Vec4) -> bool {
    &&& -FX_MAX <= v.x <= FX_MAX
    &&& -FX_MAX <= v.y <= FX_MAX
    &&& -FX_MAX <= v.z <= FX_MAX
    &&& -FX_MAX <= v.w <= FX_MAX
}

/// Normalizing is invariant under positive scaling wherever no fixed-point
/// rounding occurs: v's components are multiples of 1024 (its self dot
/// product is then exact), its squared length is a perfect square (its
/// magnitude is then exact), the factor k is a positive whole number (the
/// scaling is then exact), and everything stays representable. Outside
/// these inputs the square-root rounding can differ between the two sides
/// by one quantum.
pub proof fn lemma_normalized_scale_invariant(
    v: Vec4,
    k: int,
    k0: int,
    mx: int,
    my: int,
    mz: int,
    q: int,
)
    requires
        v.x == 1024 * mx,
        v.y == 1024 * my,
        v.z == 1024 * mz,
        mx * mx + my * my + mz * mz == q * q,
        0 < q,
        k == k0 * (FX_ONE as int),
        0 < k0,
        q * q <= FX_MAX,
        q * q * (k0 * k0) <= FX_MAX,
        iabs(1024 * (mx * k0)) <= FX_MAX,
        iabs(1024 * (my * k0)) <= FX_MAX,
        iabs(1024 * (mz * k0)) <= FX_MAX,
    ensures
        vnorm_spec(vscale_spec(v, k)) == vnorm_spec(v),
{
    let s = FX_ONE as int;
    // squares are nonnegative and bounded by the total
    assert(mx * mx >= 0 && my * my >= 0 && mz * mz >= 0 && q * q >= 0) by (nonlinear_arith);
    // the self dot product of v is exactly q * q
    assert((1024 * mx) * (1024 * mx) == (mx * mx) * s && (1024 * my) * (1024 * my) == (my * my)
        * s && (1024 * mz) * (1024 * mz) == (mz * mz) * s) by (nonlinear_arith)
        requires
            s == 0x10_0000,
    ;
    lemma_tdiv_mul_cancel(mx * mx, s);
    lemma_tdiv_mul_cancel(my * my, s);
    lemma_tdiv_mul_cancel(mz * mz, s);
    assert(dot_spec(v, v) == q * q);
    // the magnitude of v is exactly 1024 * q
    assert((1024 * q) * (1024 * q) == (q * q) * s) by (nonlinear_arith)
        requires
            s == 0x10_0000,
    ;
    assert((q * q) * s < ((1024 * q) + 1) * ((1024 * q) + 1)) by (nonlinear_arith)
        requires
            (1024 * q) * (1024 * q) == (q * q) * s && q > 0 && s == 0x10_0000,
    ;
    lemma_isqrt_unique(((q * q) * s) as nat, (1024 * q) as nat);
    assert(mag_spec(v) == 1024 * q);
    // normalizing v divides each scaled component by the exact magnitude
    assert((1024 * mx) * s == 1024 * (mx * s) && (1024 * my) * s == 1024 * (my * s) && (1024 * mz)
        * s == 1024 * (mz * s)) by (nonlinear_arith)
        requires
            s == 0x10_0000,
    ;
    lemma_tdiv_common_factor(1024, mx * s, q);
    lemma_tdiv_common_factor(1024, my * s, q);
    lemma_tdiv_common_factor(1024, mz * s, q);
    assert(vnorm_spec(v).x as int == fx_div_spec(v.x as int, 1024 * q));
    assert(fx_div_spec(v.x as int, 1024 * q) == sat(tdiv(mx * s, q)));
    // scaling by k multiplies each component by the whole number k0, exactly
    assert((1024 * mx) * (k0 * s) == (1024 * (mx * k0)) * s && (1024 * my) * (k0 * s) == (1024 * (my
        * k0)) * s && (1024 * mz) * (k0 * s) == (1024 * (mz * k0)) * s) by (nonlinear_arith)
        requires
            s == 0x10_0000,
    ;
    lemma_tdiv_mul_cancel(1024 * (mx * k0), s);
    lemma_tdiv_mul_cancel(1024 * (my * k0), s);
    lemma_tdiv_mul_cancel(1024 * (mz * k0), s);
    let vs = vscale_spec(v, k);
    assert(vs.x == 1024 * (mx * k0) && vs.y == 1024 * (my * k0) && vs.z == 1024 * (mz * k0));
    // the self dot product of the scaled vector is exactly (q * k0)^2
    assert((1024 * (mx * k0)) * (1024 * (mx * k0)) == ((mx * k0) * (mx * k0)) * s && (1024 * (my
        * k0)) * (1024 * (my * k0)) == ((my * k0) * (my * k0)) * s && (1024 * (mz * k0)) * (1024
        * (mz * k0)) == ((mz * k0) * (mz * k0)) * s) by (nonlinear_arith)
        requires
            s == 0x10_0000,
    ;
    lemma_tdiv_mul_cancel((mx * k0) * (mx * k0), s);
    lemma_tdiv_mul_cancel((my * k0) * (my * k0), s);
    lemma_tdiv_mul_cancel((mz * k0) * (mz * k0), s);
    assert((mx * k0) * (mx * k0) >= 0 && (my * k0) * (my * k0) >= 0 && (mz * k0) * (mz * k0)
        >= 0) by (nonlinear_arith);
    assert((mx * k0) * (mx * k0) == (mx * mx) * (k0 * k0)) by (nonlinear_arith);
    assert((my * k0) * (my * k0) == (my * my) * (k0 * k0)) by (nonlinear_arith);
    assert((mz * k0) * (mz * k0) == (mz * mz) * (k0 * k0)) by (nonlinear_arith);
    vstd::arithmetic::mul::lemma_mul_is_distributive_add_other_way(
        k0 * k0,
        mx * mx + my * my,
        mz * mz,
    );
    vstd::arithmetic::mul::lemma_mul_is_distributive_add_other_way(k0 * k0, mx * mx, my * my);
    assert((mx * k0) * (mx * k0) + (my * k0) * (my * k0) + (mz * k0) * (mz * k0) == (q * q) * (k0
        * k0));
    assert(dot_spec(vs, vs) == (q * q) * (k0 * k0));
    // the magnitude of the scaled vector is exactly 1024 * q * k0
    assert((q * q) * (k0 * k0) > 0) by (nonlinear_arith)
        requires
            q > 0 && k0 > 0,
    ;
    assert((1024 * (q * k0)) * (1024 * (q * k0)) == ((q * q) * (k0 * k0)) * s) by (nonlinear_arith)
        requires
            s == 0x10_0000,
    ;
    assert(((q * q) * (k0 * k0)) * s < ((1024 * (q * k0)) + 1) * ((1024 * (q * k0))
        + 1)) by (nonlinear_arith)
        requires
            (1024 * (q * k0)) * (1024 * (q * k0)) == ((q * q) * (k0 * k0)) * s && q > 0 && k0 > 0
                && s == 0x10_0000,
    ;
    assert(1024 * (q * k0) > 0) by (nonlinear_arith)
        requires
            q > 0 && k0 > 0,
    ;
    lemma_isqrt_unique((((q * q) * (k0 * k0)) * s) as nat, (1024 * (q * k0)) as nat);
    assert(mag_spec(vs) == 1024 * (q * k0));
    // the common factor 1024 * k0 cancels from each normalized component
    assert((1024 * (mx * k0)) * s == (1024 * k0) * (mx * s) && (1024 * (my * k0)) * s == (1024
        * k0) * (my * s) && (1024 * (mz * k0)) * s == (1024 * k0) * (mz * s) && 1024 * (q * k0)
        == (1024 * k0) * q) by (nonlinear_arith)
        requires
            s == 0x10_0000,
    ;
    assert(1024 * k0 > 0) by (nonlinear_arith)
        requires
            k0 > 0,
    ;
    lemma_tdiv_common_factor(1024 * k0, mx * s, q);
    lemma_tdiv_common_factor(1024 * k0, my * s, q);
    lemma_tdiv_common_factor(1024 * k0, mz * s, q);
    assert(fx_div_spec(vs.x as int, 1024 * (q * k0)) == sat(tdiv(mx * s, q)));
    assert(fx_div_spec(vs.y as int, 1024 * (q * k0)) == sat(tdiv(my * s, q)));
    assert(fx_div_spec(vs.z as int, 1024 * (q * k0)) == sat(tdiv(mz * s, q)));
    assert(vnorm_spec(vs).x == vnorm_spec(v).x);
    assert(vnorm_spec(vs).y == vnorm_spec(v).y);
    assert(vnorm_spec(vs).z == vnorm_spec(v).z);
    assert(vnorm_spec(vs).w == vnorm_spec(v).w);
}

} // verus!
