//! The distance-field scene: primitive signed distance functions (sphere,
//! rounded box), the hard and smooth union combinators, and a scene tree
//! that composes them into one scalar field `point -> nearest-surface
//! distance`. Distances are signed: negative inside a solid, zero on the
//! boundary, positive outside.

use vstd::prelude::*;

use crate::fixed::{
    fx_abs, fx_abs_spec, fx_div, fx_div_spec, fx_max, fx_max_spec, fx_min, fx_min_spec, fx_mul,
    fx_mul_spec, fx_sub, fx_sub_spec, lemma_tdiv_mul_cancel, sat, tdiv, FX_MAX, FX_ONE,
};
use crate::vector::{mag_spec, vabs_spec, vsub_spec, Vec4};

verus! {

/// The fixed corner radius of the rounded box, about a tenth.
pub const CORNER_RADIUS: i64 = 104858;

/// A quarter, in fixed point.
pub const QUARTER: i64 = 0x4_0000;

/// Distance from a pre-translated point to a sphere around the origin.
pub open spec fn sphere_spec(radius: int, p: Vec4) -> int {
    fx_sub_spec(mag_spec(p), radius)
}

/// Distance from a pre-translated point to a rounded box around the origin
/// with the given half-extents: the length of the component-wise positive
/// part of |p| - dimensions, less the corner radius.
pub open spec fn cuboid_spec(dimensions: Vec4, p: Vec4) -> int {
    let q = vsub_spec(vabs_spec(p), dimensions);
    let v = Vec4 {
        x: fx_max_spec(q.x as int, 0) as i64,
        y: fx_max_spec(q.y as int, 0) as i64,
        z: fx_max_spec(q.z as int, 0) as i64,
        w: FX_ONE,
    };
    fx_sub_spec(mag_spec(v), CORNER_RADIUS as int)
}

/// The hard union of two distances: their minimum.
pub open spec fn union_spec(d1: int, d2: int) -> int {
    fx_min_spec(d1, d2)
}

/// The polynomial smooth union with blend radius k.
pub open spec fn smooth_union_spec(d1: int, d2: int, k: int) -> int {
    let h = fx_div_spec(fx_max_spec(fx_sub_spec(k, fx_abs_spec(fx_sub_spec(d1, d2))), 0), k);
    fx_sub_spec(
        fx_min_spec(d1, d2),
        fx_mul_spec(fx_mul_spec(fx_mul_spec(h, h), k), QUARTER as int),
    )
}

/// Translate a query point into a primitive's local frame.
pub fn translate(position: &Vec4, v: &Vec4) -> (r: Vec4)
    ensures
        r == vsub_spec(*position, *v),
{
    position.sub(v)
}

/// The sphere primitive: distance of the pre-translated point, less the
/// radius.
pub fn sphere(radius: i64, p: &Vec4) -> (r: i64)
    ensures
        r as int == sphere_spec(radius as int, *p),
{
    fx_sub(p.mag(), radius)
}

/// The rounded-box primitive over a pre-translated point.
pub fn cuboid(dimensions: &Vec4, p: &Vec4) -> (r: i64)
    ensures
        r as int == cuboid_spec(*dimensions, *p),
{
    let q = p.abs().sub(dimensions);
    let v = Vec4::position(fx_max(q.x, 0), fx_max(q.y, 0), fx_max(q.z, 0));
    fx_sub(v.mag(), CORNER_RADIUS)
}

/// The smooth union combinator. Blending two equal distances lowers them by
/// a quarter of the blend radius: for representable d and k with k > 0,
/// `smooth_union(d, d, k) == d - k / 4` (k / 4 rounded toward zero).
pub fn smooth_union(d1: i64, d2: i64, k: i64) -> (r: i64)
    ensures
        r as int == smooth_union_spec(d1 as int, d2 as int, k as int),
        d1 == d2 && 0 < k <= FX_MAX ==> r as int == fx_sub_spec(d1 as int, tdiv(k as int, 4)),
{
    let diff = fx_sub(d1, d2);
    let h = fx_div(fx_max(fx_sub(k, fx_abs(diff)), 0), k);
    let m = fx_min(d1, d2);
    let r = fx_sub(m, fx_mul(fx_mul(fx_mul(h, h), k), QUARTER));
    proof {
        if d1 == d2 && 0 < k <= FX_MAX {
            let ki = k as int;
            let s = FX_ONE as int;
            lemma_tdiv_mul_cancel(s, ki);
            assert(fx_div_spec(ki, ki) == s);
            lemma_tdiv_mul_cancel(s, s);
            assert(fx_mul_spec(s, s) == s);
            lemma_tdiv_mul_cancel(ki, s);
            assert(fx_mul_spec(s, ki) == ki);
            let x = ki / 4;
            let e2 = (ki % 4) * (QUARTER as int);
            assert(ki * (QUARTER as int) == x * s + e2);
            assert((x * s + e2) / s == x) by (nonlinear_arith)
                requires
                    x >= 0,
                    0 <= e2 < s,
                    s == 0x10_0000,
            ;
            assert(tdiv(ki * (QUARTER as int), s) == tdiv(ki, 4));
            assert(fx_mul_spec(ki, QUARTER as int) == sat(tdiv(ki, 4)));
            assert(0 <= tdiv(ki, 4) <= FX_MAX);
        }
    }
    r
}

/// The hard union combinator: exactly the minimum of the two distances.
pub fn union(d1: i64, d2: i64) -> (r: i64)
    ensures
        r as int == union_spec(d1 as int, d2 as int),
        r == d1 || r == d2,
        r <= d1 && r <= d2,
{
    fx_min(d1, d2)
}

/// A distance-field scene: a tree of primitives, each pre-translating the
/// query point by its world-space center, combined by hard and smooth
/// unions. The field it denotes is `scene_dist`.
pub enum Scene {
    Sphere { radius: i64, center: Vec4 },
    Cuboid { dimensions: Vec4, center: Vec4 },
    Union(Box<Scene>, Box<Scene>),
    SmoothUnion(Box<Scene>, Box<Scene>, i64),
}

/// The signed distance from p to the nearest surface of the scene.
pub open spec fn scene_dist(s: Scene, p: Vec4) -> int
    decreases s,
{
    match s {
        Scene::Sphere { radius, center } => sphere_spec(radius as int, vsub_spec(p, center)),
        Scene::Cuboid { dimensions, center } => cuboid_spec(dimensions, vsub_spec(p, center)),
        Scene::Union(a, b) => union_spec(scene_dist(*a, p), scene_dist(*b, p)),
        Scene::SmoothUnion(a, b, k) => smooth_union_spec(
            scene_dist(*a, p),
            scene_dist(*b, p),
            k as int,
        ),
    }
}

/// The distance field of the sample scene: four blended unit spheres in
/// two smooth pairs, a ground sphere of radius 500 sunk to y = -505, and
/// two smoothly joined rounded boxes, all joined by hard unions. The
/// scalar constants are 1, 1.5, 2, 0.5 and the like in fixed point.
pub open spec fn sample_dist_spec(p: Vec4) -> int {
    let c1 = Vec4 { x: -0x30_0000i64, y: -0x10_0000i64, z: 0i64, w: FX_ONE };
    let c2 = Vec4 { x: -0x20_0000i64, y: 0x10_0000i64, z: 0i64, w: FX_ONE };
    let c3 = Vec4 { x: 0x20_0000i64, y: -0x10_0000i64, z: 0i64, w: FX_ONE };
    let c4 = Vec4 { x: 0x30_0000i64, y: 0x10_0000i64, z: 0i64, w: FX_ONE };
    let c5 = Vec4 { x: 0i64, y: -0x1F90_0000i64, z: 0i64, w: FX_ONE };
    let dims1 = Vec4 { x: 0x8_0000i64, y: 0x8_0000i64, z: 0x8_0000i64, w: 0i64 };
    let origin = Vec4 { x: 0i64, y: 0i64, z: 0i64, w: 0i64 };
    let dims2 = Vec4 { x: FX_ONE, y: FX_ONE, z: FX_ONE, w: 0i64 };
    let c6 = Vec4 { x: FX_ONE, y: FX_ONE, z: FX_ONE, w: 0i64 };
    union_spec(
        union_spec(
            smooth_union_spec(
                sphere_spec(FX_ONE as int, vsub_spec(p, c1)),
                sphere_spec(FX_ONE as int, vsub_spec(p, c2)),
                0x18_0000,
            ),
            smooth_union_spec(
                sphere_spec(FX_ONE as int, vsub_spec(p, c3)),
                sphere_spec(FX_ONE as int, vsub_spec(p, c4)),
                0x20_0000,
            ),
        ),
        union_spec(
            sphere_spec(0x1F40_0000, vsub_spec(p, c5)),
            smooth_union_spec(
                cuboid_spec(dims1, vsub_spec(p, origin)),
                cuboid_spec(dims2, vsub_spec(p, c6)),
                FX_ONE as int,
            ),
        ),
    )
}

/// Build the sample scene as data; its field is `sample_dist_spec`.
pub fn sample_scene() -> (r: Scene)
    ensures
        forall|p: Vec4| #[trigger] scene_dist(r, p) == sample_dist_spec(p),
{
    let s1 = Scene::Sphere { radius: FX_ONE, center: Vec4::position(-0x30_0000, -0x10_0000, 0) };
    let s2 = Scene::Sphere { radius: FX_ONE, center: Vec4::position(-0x20_0000, 0x10_0000, 0) };
    let s3 = Scene::Sphere { radius: FX_ONE, center: Vec4::position(0x20_0000, -0x10_0000, 0) };
    let s4 = Scene::Sphere { radius: FX_ONE, center: Vec4::position(0x30_0000, 0x10_0000, 0) };
    let ground = Scene::Sphere { radius: 0x1F40_0000, center: Vec4::position(0, -0x1F90_0000, 0) };
    let box1 = Scene::Cuboid {
        dimensions: Vec4::direction(0x8_0000, 0x8_0000, 0x8_0000),
        center: Vec4::direction(0, 0, 0),
    };
    let box2 = Scene::Cuboid {
        dimensions: Vec4::direction(FX_ONE, FX_ONE, FX_ONE),
        center: Vec4::direction(FX_ONE, FX_ONE, FX_ONE),
    };
    let left = Scene::Union(
        Box::new(Scene::SmoothUnion(Box::new(s1), Box::new(s2), 0x18_0000)),
        Box::new(Scene::SmoothUnion(Box::new(s3), Box::new(s4), 0x20_0000)),
    );
    let right = Scene::Union(
        Box::new(ground),
        Box::new(Scene::SmoothUnion(Box::new(box1), Box::new(box2), FX_ONE)),
    );
    let r = Scene::Union(Box::new(left), Box::new(right));
    proof {
        assert forall|p: Vec4| #[trigger] scene_dist(r, p) == sample_dist_spec(p) by {
            reveal_with_fuel(scene_dist, 6);
        }
    }
    r
}

/// The sample scene's field as one function of a point.
pub fn sdf(position: &Vec4) -> (r: i64)
    ensures
        r as int == sample_dist_spec(*position),
{
    let scene = sample_scene();
    scene.distance(position)
}

impl Scene {
    /// Evaluate the field: the signed distance from p to the scene.
    pub fn distance(&self, p: &Vec4) -> (r: i64)
        ensures
            r as int == scene_dist(*self, *p),
        decreases *self,
    {
        match self {
            Scene::Sphere { radius, center } => sphere(*radius, &translate(p, center)),
            Scene::Cuboid { dimensions, center } => cuboid(dimensions, &translate(p, center)),
            Scene::Union(a, b) => union(a.distance(p), b.distance(p)),
            Scene::SmoothUnion(a, b, k) => smooth_union(a.distance(p), b.distance(p), *k),
        }
    }
}

} // verus!
