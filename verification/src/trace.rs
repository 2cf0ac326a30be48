//! The sphere tracer and what sits on top of it: marching a ray through a
//! distance field until a surface is hit or the ray escapes, estimating
//! surface normals from four field samples, computing the shadowed diffuse
//! lighting term, and mapping a pixel coordinate to a camera-space ray.

use vstd::prelude::*;

use crate::fixed::{
    fx_add, fx_add_spec, fx_clamp, fx_clamp_spec, fx_div, fx_div_spec, fx_mul, fx_mul_spec,
    fx_of_int, sat, tdiv, FX_MAX, FX_ONE,
};
use crate::matrix::{xform_spec, Mat4};
use crate::scene::{scene_dist, Scene};
use crate::vector::{dot_spec, vadd_spec, vnorm_spec, vscale_spec, vsub_spec, Vec4};

verus! {

/// Offset magnitude for the four normal-estimation samples, about
/// 0.5773 * 0.005 in fixed point.
pub const NORMAL_EPS: i64 = 3027;

/// The negated normal-estimation offset.
pub const NORMAL_EPS_NEG: i64 = -3027;

/// The negated unit scalar, for the tetrahedron sign patterns.
pub const FX_ONE_NEG: i64 = -0x10_0000;

/// The gradient sum is stretched by this factor (64) before normalizing,
/// which leaves its direction unchanged and keeps the squared length well
/// above the fixed-point quantum.
pub const GRAD_SCALE: i64 = 0x400_0000;

/// Distance from the eye to the image plane, 2.5 in fixed point.
pub const PLANE_DIST: i64 = 0x28_0000;

/// The outcome of one sphere trace: a hit at a distance along the ray, or
/// a miss.
#[derive(Clone, Copy, PartialEq, Eq, Structural, Debug)]
pub enum CastResult {
    Hit(i64),
    Miss,
}

/// What the tracer reports when its iteration budget runs out without a
/// hit or an escape: a hit at the last marched distance, or a miss.
#[derive(Clone, Copy, PartialEq, Eq, Structural, Debug)]
pub enum ExhaustionPolicy {
    HitAtLast,
    Miss,
}

/// The sphere tracer's tuning: near and far bounds, the iteration budget,
/// the scale of the distance-proportional hit threshold, and the
/// exhaustion policy.
#[derive(Clone, Copy, PartialEq, Eq, Structural, Debug)]
pub struct TraceConfig {
    pub t_min: i64,
    pub t_max: i64,
    pub iterations: u32,
    pub hit_epsilon: i64,
    pub on_exhaustion: ExhaustionPolicy,
}

/// The point reached after traveling t along the ray from the origin.
pub open spec fn ray_point(origin: Vec4, ray: Vec4, t: int) -> Vec4 {
    vadd_spec(origin, vscale_spec(ray, t))
}

/// The marching recurrence of the sphere tracer, one unfolding per field
/// sample: hit as soon as the sampled distance falls under epsilon * t,
/// miss as soon as the advanced t leaves the far bound, and the configured
/// policy when the budget runs out.
pub open spec fn trace_rec(s: Scene, origin: Vec4, ray: Vec4, t: int, fuel: nat, cfg: TraceConfig) -> CastResult
    decreases fuel,
{
    if fuel == 0 {
        match cfg.on_exhaustion {
            ExhaustionPolicy::HitAtLast => CastResult::Hit(t as i64),
            ExhaustionPolicy::Miss => CastResult::Miss,
        }
    } else {
        let dist = scene_dist(s, ray_point(origin, ray, t));
        if dist < fx_mul_spec(cfg.hit_epsilon as int, t) {
            CastResult::Hit(t as i64)
        } else {
            let t2 = fx_add_spec(t, dist);
            if t2 > cfg.t_max {
                CastResult::Miss
            } else {
                trace_rec(s, origin, ray, t2, (fuel - 1) as nat, cfg)
            }
        }
    }
}

/// March a ray from `position` along the unit direction `ray` through the
/// scene's distance field: exactly the marching recurrence, started at the
/// near bound with the configured iteration budget.
pub fn cast_ray(scene: &Scene, position: &Vec4, ray: &Vec4, cfg: &TraceConfig) -> (r: CastResult)
    ensures
        r == trace_rec(*scene, *position, *ray, cfg.t_min as int, cfg.iterations as nat, *cfg),
{
    let mut t: i64 = cfg.t_min;
    let mut remaining: u32 = cfg.iterations;
    while remaining > 0
        invariant
            trace_rec(*scene, *position, *ray, cfg.t_min as int, cfg.iterations as nat, *cfg)
                == trace_rec(*scene, *position, *ray, t as int, remaining as nat, *cfg),
        decreases remaining,
    {
        let dist = scene.distance(&position.add(&ray.scale(t)));
        let threshold = fx_mul(cfg.hit_epsilon, t);
        if dist < threshold {
            return CastResult::Hit(t);
        }
        let t2 = fx_add(t, dist);
        if t2 > cfg.t_max {
            return CastResult::Miss;
        }
        t = t2;
        remaining = remaining - 1;
    }
    match cfg.on_exhaustion {
        ExhaustionPolicy::HitAtLast => CastResult::Hit(t),
        ExhaustionPolicy::Miss => CastResult::Miss,
    }
}

/// A ray that stays far from every surface is reported as a miss: if the
/// field never falls under the hit threshold along the ray and keeps a
/// positive floor large enough to walk the ray past the far bound within
/// the budget, the marching recurrence ends in `Miss`.
pub proof fn lemma_far_ray_misses(
    s: Scene,
    origin: Vec4,
    ray: Vec4,
    t: int,
    fuel: nat,
    cfg: TraceConfig,
    dmin: int,
)
    requires
        cfg.t_min <= t <= cfg.t_max,
        cfg.t_max < FX_MAX,
        0 < dmin,
        forall|tt: int|
            t <= tt <= cfg.t_max ==> #[trigger] scene_dist(s, ray_point(origin, ray, tt)) >= dmin,
        forall|tt: int|
            t <= tt <= cfg.t_max ==> scene_dist(s, ray_point(origin, ray, tt)) >= fx_mul_spec(
                cfg.hit_epsilon as int,
                tt,
            ),
        fuel * dmin > cfg.t_max - t,
    ensures
        trace_rec(s, origin, ray, t, fuel, cfg) == CastResult::Miss,
    decreases fuel,
{
    if fuel == 0 {
        assert(false);
    } else {
        let dist = scene_dist(s, ray_point(origin, ray, t));
        assert(dist >= dmin);
        assert(dist >= fx_mul_spec(cfg.hit_epsilon as int, t));
        let t2 = fx_add_spec(t, dist);
        if t2 > cfg.t_max {
        } else {
            assert(t2 >= t + dmin);
            assert((fuel - 1) * dmin == fuel * dmin - dmin) by (nonlinear_arith);
            lemma_far_ray_misses(s, origin, ray, t2, (fuel - 1) as nat, cfg, dmin);
        }
    }
}

/// The estimated surface normal: four field samples at the corners of a
/// small tetrahedron around p, each weighting its corner's sign pattern;
/// the weighted sum is stretched and normalized into a unit direction.
/// (Weighting the sign patterns rather than the offsets themselves drops
/// the common positive factor `NORMAL_EPS`, which the normalization would
/// erase anyway, and keeps the sum above the fixed-point quantum.)
pub open spec fn normal_spec(s: Scene, p: Vec4) -> Vec4 {
    let o1 = Vec4 { x: NORMAL_EPS, y: NORMAL_EPS_NEG, z: NORMAL_EPS_NEG, w: FX_ONE };
    let o2 = Vec4 { x: NORMAL_EPS_NEG, y: NORMAL_EPS_NEG, z: NORMAL_EPS, w: FX_ONE };
    let o3 = Vec4 { x: NORMAL_EPS_NEG, y: NORMAL_EPS, z: NORMAL_EPS_NEG, w: FX_ONE };
    let o4 = Vec4 { x: NORMAL_EPS, y: NORMAL_EPS, z: NORMAL_EPS, w: FX_ONE };
    let p1 = Vec4 { x: FX_ONE, y: FX_ONE_NEG, z: FX_ONE_NEG, w: 0i64 };
    let p2 = Vec4 { x: FX_ONE_NEG, y: FX_ONE_NEG, z: FX_ONE, w: 0i64 };
    let p3 = Vec4 { x: FX_ONE_NEG, y: FX_ONE, z: FX_ONE_NEG, w: 0i64 };
    let p4 = Vec4 { x: FX_ONE, y: FX_ONE, z: FX_ONE, w: 0i64 };
    let f1 = scene_dist(s, vadd_spec(p, o1));
    let f2 = scene_dist(s, vadd_spec(p, o2));
    let f3 = scene_dist(s, vadd_spec(p, o3));
    let f4 = scene_dist(s, vadd_spec(p, o4));
    let g = vadd_spec(
        vadd_spec(vadd_spec(vscale_spec(p1, f1), vscale_spec(p2, f2)), vscale_spec(p3, f3)),
        vscale_spec(p4, f4),
    );
    let n = vnorm_spec(vscale_spec(g, GRAD_SCALE as int));
    Vec4 { x: n.x, y: n.y, z: n.z, w: 0i64 }
}

/// Estimate the surface normal at a (near-)surface point.
pub fn calc_normal(scene: &Scene, position: &Vec4) -> (r: Vec4)
    ensures
        r == normal_spec(*scene, *position),
{
    let o1 = Vec4::position(NORMAL_EPS, NORMAL_EPS_NEG, NORMAL_EPS_NEG);
    let o2 = Vec4::position(NORMAL_EPS_NEG, NORMAL_EPS_NEG, NORMAL_EPS);
    let o3 = Vec4::position(NORMAL_EPS_NEG, NORMAL_EPS, NORMAL_EPS_NEG);
    let o4 = Vec4::position(NORMAL_EPS, NORMAL_EPS, NORMAL_EPS);
    let p1 = Vec4::direction(FX_ONE, FX_ONE_NEG, FX_ONE_NEG);
    let p2 = Vec4::direction(FX_ONE_NEG, FX_ONE_NEG, FX_ONE);
    let p3 = Vec4::direction(FX_ONE_NEG, FX_ONE, FX_ONE_NEG);
    let p4 = Vec4::direction(FX_ONE, FX_ONE, FX_ONE);
    let f1 = scene.distance(&position.add(&o1));
    let f2 = scene.distance(&position.add(&o2));
    let f3 = scene.distance(&position.add(&o3));
    let f4 = scene.distance(&position.add(&o4));
    let g = p1.scale(f1).add(&p2.scale(f2)).add(&p3.scale(f3)).add(&p4.scale(f4));
    g.scale(GRAD_SCALE).normalized().as_direction()
}

/// The shadowed diffuse lighting term at a surface point: the clamped dot
/// of the unit direction toward the light with the normal, collapsed to
/// the ambient floor whenever a second trace toward the light hits
/// anything.
pub open spec fn illum_spec(
    s: Scene,
    position: Vec4,
    normal: Vec4,
    light_pos: Vec4,
    min_light: int,
    cfg: TraceConfig,
) -> int {
    let light_dir = vnorm_spec(vsub_spec(light_pos, position));
    let shadow = trace_rec(s, position, light_dir, cfg.t_min as int, cfg.iterations as nat, cfg);
    match shadow {
        CastResult::Hit(_) => min_light,
        CastResult::Miss => fx_clamp_spec(dot_spec(light_dir, normal), min_light, FX_ONE as int),
    }
}

/// Compute the lighting term at a surface point, hard-shadowed by a second
/// sphere trace toward the light.
pub fn illuminate(
    scene: &Scene,
    position: &Vec4,
    normal: &Vec4,
    light_pos: &Vec4,
    min_light: i64,
    cfg: &TraceConfig,
) -> (r: i64)
    requires
        min_light <= FX_ONE,
    ensures
        r as int == illum_spec(*scene, *position, *normal, *light_pos, min_light as int, *cfg),
{
    let light_dir = light_pos.sub(position).normalized();
    let shadow = cast_ray(scene, position, &light_dir, cfg);
    match shadow {
        CastResult::Hit(_) => min_light,
        CastResult::Miss => fx_clamp(light_dir.dot_product(normal), min_light, FX_ONE),
    }
}

/// The camera-space ray direction for a pixel: the pixel coordinate mapped
/// into a symmetric image-plane square scaled by the image height, a fixed
/// plane distance, normalized.
pub open spec fn pixel_dir_spec(x: int, y: int, width: int, height: int) -> Vec4 {
    let rp = Vec4 { x: sat(x * FX_ONE) as i64, y: sat(y * FX_ONE) as i64, z: 0i64, w: FX_ONE };
    let res = Vec4 {
        x: sat(width * FX_ONE) as i64,
        y: sat(height * FX_ONE) as i64,
        z: 0i64,
        w: FX_ONE,
    };
    let sc = fx_div_spec(FX_ONE as int, sat(height * FX_ONE));
    let p = vscale_spec(vsub_spec(vscale_spec(rp, sat(2 * FX_ONE)), res), sc);
    vnorm_spec(Vec4 { x: p.x, y: p.y, z: PLANE_DIST, w: p.w })
}

/// Map an integer pixel coordinate to the camera-space ray direction.
pub fn pixel_dir(x: u32, y: u32, width: u32, height: u32) -> (r: Vec4)
    ensures
        r == pixel_dir_spec(x as int, y as int, width as int, height as int),
{
    let rp = Vec4::position(fx_of_int(x as i64), fx_of_int(y as i64), 0);
    let res = Vec4::position(fx_of_int(width as i64), fx_of_int(height as i64), 0);
    let sc = fx_div(FX_ONE, fx_of_int(height as i64));
    let mut p = rp.scale(fx_of_int(2)).sub(&res).scale(sc);
    p.z = PLANE_DIST;
    p.normalized()
}

/// The brightness byte for a lighting term: 255 * light, floored and
/// clamped into 0..=255.
pub open spec fn to_byte_spec(light: int) -> int {
    let scaled = fx_mul_spec(sat(255 * FX_ONE), light);
    fx_clamp_spec(tdiv(scaled, FX_ONE as int), 0, 255)
}

/// Map a lighting term to an 8-bit brightness.
pub fn to_byte(light: i64) -> (r: u8)
    ensures
        r as int == to_byte_spec(light as int),
{
    let scaled = fx_mul(fx_of_int(255), light);
    if scaled <= 0 {
        proof {
            assert(tdiv(scaled as int, FX_ONE as int) <= 0);
        }
        0
    } else if scaled >= 0xFF0_0000 {
        proof {
            assert(tdiv(scaled as int, FX_ONE as int) >= 255);
        }
        255
    } else {
        let q: u64 = (scaled as u64) / (FX_ONE as u64);
        proof {
            assert(q == (scaled as int) / (FX_ONE as int));
            assert(tdiv(scaled as int, FX_ONE as int) == (scaled as int) / (FX_ONE as int));
            assert(q < 256);
        }
        q as u8
    }
}

/// The whole per-pixel computation: build the pixel's world-space ray from
/// the camera transform, trace it, and on a hit estimate the normal, light
/// the point and return its brightness byte; a miss is `None` (the
/// background).
pub open spec fn render_pixel_spec(
    s: Scene,
    camera: Mat4,
    eye: Vec4,
    x: int,
    y: int,
    width: int,
    height: int,
    light_pos: Vec4,
    min_light: int,
    cfg: TraceConfig,
) -> Option<u8> {
    let view_ray = xform_spec(camera, pixel_dir_spec(x, y, width, height));
    let result = trace_rec(s, eye, view_ray, cfg.t_min as int, cfg.iterations as nat, cfg);
    match result {
        CastResult::Hit(t) => {
            let hit = vadd_spec(eye, vscale_spec(view_ray, t as int));
            let normal = normal_spec(s, hit);
            let light = illum_spec(s, hit, normal, light_pos, min_light, cfg);
            Some(to_byte_spec(light) as u8)
        },
        CastResult::Miss => None,
    }
}

/// Render one pixel against a scene, camera and light.
pub fn render_pixel(
    scene: &Scene,
    camera: &Mat4,
    eye: &Vec4,
    x: u32,
    y: u32,
    width: u32,
    height: u32,
    light_pos: &Vec4,
    min_light: i64,
    cfg: &TraceConfig,
) -> (r: Option<u8>)
    requires
        min_light <= FX_ONE,
    ensures
        r == render_pixel_spec(
            *scene,
            *camera,
            *eye,
            x as int,
            y as int,
            width as int,
            height as int,
            *light_pos,
            min_light as int,
            *cfg,
        ),
{
    let dir_cam = pixel_dir(x, y, width, height);
    let view_ray = camera.transform(&dir_cam);
    let result = cast_ray(scene, eye, &view_ray, cfg);
    match result {
        CastResult::Hit(t) => {
            let hit = eye.add(&view_ray.scale(t));
            let normal = calc_normal(scene, &hit);
            let light = illuminate(scene, &hit, &normal, light_pos, min_light, cfg);
            Some(to_byte(light))
        },
        CastResult::Miss => None,
    }
}

/// The tracer tuning the renderer was written against: march from 1 to
/// 200, at most 49 samples, a hit threshold of about 0.0001 * t, and a hit
/// at the last marched distance when the budget runs out.
pub fn default_config() -> (r: TraceConfig)
    ensures
        r == (TraceConfig {
            t_min: FX_ONE,
            t_max: 0xC80_0000,
            iterations: 49,
            hit_epsilon: 105,
            on_exhaustion: ExhaustionPolicy::HitAtLast,
        }),
{
    TraceConfig {
        t_min: FX_ONE,
        t_max: 0xC80_0000,
        iterations: 49,
        hit_epsilon: 105,
        on_exhaustion: ExhaustionPolicy::HitAtLast,
    }
}

} // verus!
