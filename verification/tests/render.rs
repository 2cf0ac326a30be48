use sphere_tracer::fixed::FX_ONE;
use sphere_tracer::matrix::Mat4;
use sphere_tracer::scene::{cuboid, sample_scene, sdf, smooth_union, sphere, translate, union, Scene};
use sphere_tracer::trace::{
    calc_normal, cast_ray, default_config, illuminate, pixel_dir, render_pixel, to_byte,
    CastResult, ExhaustionPolicy,
};
use sphere_tracer::vector::Vec4;

/// A float written as a fixed-point scalar.
fn fixed(v: f64) -> i64 {
    (v * 1048576.0).round() as i64
}

fn close(a: i64, b: i64, tol: i64) -> bool {
    (a - b).abs() <= tol
}

fn vec_close(a: Vec4, b: Vec4, tol: i64) -> bool {
    close(a.x, b.x, tol) && close(a.y, b.y, tol) && close(a.z, b.z, tol) && close(a.w, b.w, tol)
}

#[test]
fn check() {
    let p = Vec4::position(fixed(0.0), fixed(0.0), fixed(-10.0));
    let d = Vec4::direction(fixed(0.0), fixed(0.0), fixed(1.0));
    let scene = sample_scene();
    let cfg = default_config();
    let pt = cast_ray(&scene, &p, &d, &cfg);
    match pt {
        CastResult::Hit(t) => {
            let point = p.add(&d.scale(t));
            let norm = calc_normal(&scene, &point);
            let expected = Vec4::direction(fixed(0.0), fixed(0.0), fixed(-1.0));
            assert!(vec_close(norm, expected, fixed(0.01)));
        }
        CastResult::Miss => {
            assert!(false, "Expected hit");
        }
    }
}

#[test]
fn union_is_min() {
    assert_eq!(fixed(3.0), union(fixed(3.0), fixed(5.0)));
    assert_eq!(fixed(-1.0), union(fixed(2.0), fixed(-1.0)));
    assert_eq!(fixed(2.0), union(fixed(2.0), fixed(2.0)));
}

#[test]
fn smooth_union_equal_inputs() {
    // blending two equal distances lowers them by a quarter of the radius
    assert_eq!(fixed(0.0), smooth_union(fixed(0.5), fixed(0.5), fixed(2.0)));
    assert_eq!(fixed(1.0) - fixed(1.5) / 4, smooth_union(fixed(1.0), fixed(1.0), fixed(1.5)));
}

#[test]
fn smooth_union_far_apart_is_min() {
    // with |d1 - d2| beyond the blend radius the smooth union is the plain minimum
    assert_eq!(fixed(1.0), smooth_union(fixed(1.0), fixed(5.0), fixed(2.0)));
}

#[test]
fn sphere_distance() {
    let p = Vec4::position(fixed(0.0), fixed(0.0), fixed(3.0));
    assert_eq!(fixed(1.0), sphere(fixed(2.0), &p));
    let origin = Vec4::position(fixed(0.0), fixed(0.0), fixed(0.0));
    assert_eq!(fixed(-2.0), sphere(fixed(2.0), &origin));
}

#[test]
fn cuboid_distance() {
    let dims = Vec4::direction(fixed(0.5), fixed(0.5), fixed(0.5));
    let p = Vec4::position(fixed(0.0), fixed(0.0), fixed(2.0));
    assert_eq!(fixed(1.5) - 104858, cuboid(&dims, &p));
}

#[test]
fn translate_subtracts() {
    let p = Vec4::position(fixed(3.0), fixed(2.0), fixed(1.0));
    let c = Vec4::position(fixed(1.0), fixed(1.0), fixed(1.0));
    assert_eq!(Vec4::direction(fixed(2.0), fixed(1.0), fixed(0.0)), translate(&p, &c));
}

#[test]
fn sdf_sample_scene_matches_tree() {
    let scene = sample_scene();
    let p = Vec4::position(fixed(0.3), fixed(1.2), fixed(-4.0));
    assert_eq!(scene.distance(&p), sdf(&p));
}

#[test]
fn trace_sphere_hit_with_normal() {
    // a lone sphere of radius 2 around the origin
    let scene = Scene::Sphere {
        radius: fixed(2.0),
        center: Vec4::position(fixed(0.0), fixed(0.0), fixed(0.0)),
    };
    let eye = Vec4::position(fixed(0.0), fixed(0.0), fixed(-10.0));
    let dir = Vec4::direction(fixed(0.0), fixed(0.0), fixed(1.0));
    let cfg = default_config();
    match cast_ray(&scene, &eye, &dir, &cfg) {
        CastResult::Hit(t) => {
            assert!(close(t, fixed(8.0), fixed(0.01)));
            let point = eye.add(&dir.scale(t));
            let normal = calc_normal(&scene, &point);
            assert!(vec_close(normal, Vec4::direction(0, 0, -FX_ONE), fixed(0.01)));
        }
        CastResult::Miss => {
            assert!(false, "Expected hit");
        }
    }
}

#[test]
fn trace_away_from_scene_misses() {
    let scene = sample_scene();
    let eye = Vec4::position(fixed(0.0), fixed(0.0), fixed(-10.0));
    let away = Vec4::direction(fixed(0.0), fixed(0.0), fixed(-1.0));
    let cfg = default_config();
    assert!(matches!(cast_ray(&scene, &eye, &away, &cfg), CastResult::Miss));
}

#[test]
fn exhaustion_policies_differ() {
    let scene = Scene::Sphere {
        radius: fixed(2.0),
        center: Vec4::position(fixed(0.0), fixed(0.0), fixed(0.0)),
    };
    let eye = Vec4::position(fixed(0.0), fixed(0.0), fixed(-10.0));
    let dir = Vec4::direction(fixed(0.0), fixed(0.0), fixed(1.0));
    let mut cfg = default_config();
    cfg.iterations = 1;
    cfg.on_exhaustion = ExhaustionPolicy::HitAtLast;
    assert!(matches!(cast_ray(&scene, &eye, &dir, &cfg), CastResult::Hit(_)));
    cfg.on_exhaustion = ExhaustionPolicy::Miss;
    assert!(matches!(cast_ray(&scene, &eye, &dir, &cfg), CastResult::Miss));
}

#[test]
fn shadowed_point_gets_ambient_floor() {
    // a point under the big blended boxes, with the light directly above:
    // the shadow ray hits, so the term collapses to the ambient floor
    let scene = sample_scene();
    let point = Vec4::position(fixed(1.0), fixed(-3.0), fixed(1.0));
    let normal = Vec4::direction(fixed(0.0), fixed(1.0), fixed(0.0));
    let light = Vec4::position(fixed(1.0), fixed(500.0), fixed(1.0));
    let cfg = default_config();
    let ambient = fixed(0.1);
    assert_eq!(ambient, illuminate(&scene, &point, &normal, &light, ambient, &cfg));
}

#[test]
fn lit_point_clamps_dot() {
    // a lone sphere, lit from far along -z; the point on the -z surface
    // faces the light head-on, so the term clamps to 1
    let scene = Scene::Sphere {
        radius: fixed(2.0),
        center: Vec4::position(fixed(0.0), fixed(0.0), fixed(0.0)),
    };
    let point = Vec4::position(fixed(0.0), fixed(0.0), fixed(-2.001));
    let normal = Vec4::direction(fixed(0.0), fixed(0.0), fixed(-1.0));
    let light = Vec4::position(fixed(0.0), fixed(0.0), fixed(-300.0));
    let cfg = default_config();
    let lit = illuminate(&scene, &point, &normal, &light, fixed(0.1), &cfg);
    assert!(close(lit, FX_ONE, fixed(0.01)));
}

#[test]
fn pixel_dir_center_points_forward() {
    let d = pixel_dir(960, 540, 1920, 1080);
    assert_eq!(Vec4::direction(0, 0, FX_ONE), d);
}

#[test]
fn pixel_dir_is_unit() {
    let d = pixel_dir(0, 0, 1920, 1080);
    assert!(close(d.mag(), FX_ONE, fixed(0.001)));
    assert_eq!(0, d.w);
}

#[test]
fn to_byte_scales_and_clamps() {
    assert_eq!(0, to_byte(fixed(0.0)));
    assert_eq!(0, to_byte(fixed(-1.0)));
    assert_eq!(127, to_byte(fixed(0.5)));
    assert_eq!(255, to_byte(fixed(1.0)));
    assert_eq!(255, to_byte(fixed(2.0)));
    assert_eq!(25, to_byte(fixed(0.1)));
}

#[test]
fn render_center_pixel_hits() {
    let scene = sample_scene();
    let eye = Vec4::position(fixed(5.0), fixed(5.0), fixed(-10.0));
    let target = Vec4::position(fixed(0.0), fixed(0.0), fixed(0.0));
    let camera = Mat4::look(&eye, &target);
    let light = Vec4::position(fixed(300.0), fixed(500.0), fixed(-300.0));
    let cfg = default_config();
    let px = render_pixel(&scene, &camera, &eye, 960, 540, 1920, 1080, &light, fixed(0.1), &cfg);
    match px {
        Some(b) => assert!(b >= 25),
        None => assert!(false, "Expected the center ray to hit the scene"),
    }
}
