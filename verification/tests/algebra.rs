use sphere_tracer::fixed::{fx_sqrt, FX_ONE};
use sphere_tracer::matrix::Mat4;
use sphere_tracer::vector::Vec4;

/// A float written as a fixed-point scalar.
fn fx(v: f64) -> i64 {
    (v * 1048576.0).round() as i64
}

/// Integer square root, the reference for magnitude expectations.
fn isqrt_ref(n: u128) -> u128 {
    let mut r: u128 = 0;
    while (r + 1) * (r + 1) <= n {
        r += 1;
    }
    r
}

fn near(a: i64, b: i64, tol: i64) -> bool {
    (a - b).abs() <= tol
}

fn vec_near(a: Vec4, b: Vec4, tol: i64) -> bool {
    near(a.x, b.x, tol) && near(a.y, b.y, tol) && near(a.z, b.z, tol) && near(a.w, b.w, tol)
}

#[test]
fn vector_construct() {
    let _ = Vec4::position(fx(1.0), fx(1.0), fx(1.0));
    let _ = Vec4::direction(fx(1.0), fx(1.0), fx(1.0));
}

#[test]
fn add_position() {
    let u = Vec4::position(fx(1.0), fx(2.0), fx(3.0));
    let v = Vec4::position(fx(-1.0), fx(-2.0), fx(-3.0));
    assert_eq!(Vec4::position(fx(2.0), fx(4.0), fx(6.0)), u.add(&u));
    assert_eq!(Vec4::position(fx(0.0), fx(0.0), fx(0.0)), u.add(&v));
}

#[test]
fn add_direction() {
    let u = Vec4::direction(fx(1.0), fx(2.0), fx(3.0));
    let v = Vec4::direction(fx(-1.0), fx(-2.0), fx(-3.0));
    assert_eq!(Vec4::direction(fx(2.0), fx(4.0), fx(6.0)), u.add(&u));
    assert_eq!(Vec4::direction(fx(0.0), fx(0.0), fx(0.0)), u.add(&v));
}

#[test]
fn add_direction_to_position() {
    let u = Vec4::position(fx(1.0), fx(2.0), fx(3.0));
    let v = Vec4::direction(fx(-1.0), fx(-2.0), fx(-3.0));
    assert_eq!(Vec4::position(fx(2.0), fx(4.0), fx(6.0)), u.add(&u));
    assert_eq!(Vec4::position(fx(0.0), fx(0.0), fx(0.0)), u.add(&v));
}

#[test]
fn sub() {
    let u = Vec4::position(fx(1.0), fx(2.0), fx(3.0));
    let v = Vec4::position(fx(-1.0), fx(-2.0), fx(-3.0));
    assert_eq!(Vec4::direction(fx(2.0), fx(4.0), fx(6.0)), u.sub(&v));
    assert_eq!(Vec4::direction(fx(0.0), fx(0.0), fx(0.0)), u.sub(&u));
}

#[test]
fn mul() {
    let u = Vec4::position(fx(1.0), fx(2.0), fx(3.0));
    let v = Vec4::position(fx(-1.0), fx(-2.0), fx(-3.0));
    assert_eq!(Vec4::position(fx(2.0), fx(4.0), fx(6.0)), u.scale(fx(2.0)));
    assert_eq!(Vec4::position(fx(-3.0), fx(-6.0), fx(-9.0)), v.scale(fx(3.0)));
}

#[test]
fn dot_product() {
    let u = Vec4::direction(fx(1.0), fx(2.0), fx(3.0));
    let v = Vec4::direction(fx(-1.0), fx(-2.0), fx(-3.0));
    assert_eq!(fx(-14.0), u.dot_product(&v));
    assert_eq!(fx(-14.0), v.dot_product(&u));
    assert_eq!(u.dot_product(&v), v.dot_product(&u));
}

#[test]
fn cross_product_unitvecs() {
    let u = Vec4::direction(fx(1.0), fx(0.0), fx(0.0));
    let v = Vec4::direction(fx(0.0), fx(1.0), fx(0.0));
    let w = Vec4::direction(fx(0.0), fx(0.0), fx(1.0));
    assert_eq!(w, u.cross_product(&v));
    assert_eq!(u, v.cross_product(&w));
    assert_eq!(v, w.cross_product(&u));
}

#[test]
fn mag() {
    assert_eq!(fx(1.0), Vec4::direction(fx(1.0), fx(0.0), fx(0.0)).mag());
    let sqrt2 = isqrt_ref(2 * 1048576u128 * 1048576) as i64;
    assert_eq!(sqrt2, Vec4::direction(fx(1.0), fx(1.0), fx(0.0)).mag());
    let sqrt12 = isqrt_ref(12 * 1048576u128 * 1048576) as i64;
    assert_eq!(sqrt12, Vec4::direction(fx(2.0), fx(2.0), fx(2.0)).mag());
    assert_eq!(sqrt12, fx_sqrt(fx(12.0)));
}

#[test]
fn norm() {
    let u = Vec4::direction(fx(1.0), fx(0.0), fx(0.0));
    assert_eq!(u, u.normalized());
    assert_eq!(u, (u.scale(fx(2.0))).normalized());
}

#[test]
fn combinatoric() {
    let u = Vec4::direction(fx(2.0), fx(3.0), fx(0.0));
    let v = Vec4::direction(fx(-3.0), fx(2.0), fx(0.0));
    let w = u.cross_product(&v).normalized();
    assert_eq!(Vec4::direction(fx(0.0), fx(0.0), fx(1.0)), w);
}

#[test]
fn index_ro() {
    let u = Vec4::position(fx(1.0), fx(2.0), fx(3.0));
    assert_eq!(fx(1.0), u.comp(0));
    assert_eq!(fx(2.0), u.comp(1));
    assert_eq!(fx(3.0), u.comp(2));
}

#[test]
fn index_rw() {
    let mut u = Vec4::position(fx(1.0), fx(2.0), fx(3.0));
    let v = u.comp(1);
    u.set_comp(0, v);
    assert_eq!(u.comp(0), u.comp(1));
}

#[test]
fn matrix_construct() {
    let _m = Mat4::i();
}

#[test]
fn access_ro() {
    let m = Mat4::i();
    assert_eq!(fx(1.0), m.entry(0, 0));
    assert_eq!(fx(1.0), m.entry(1, 1));
    assert_eq!(fx(1.0), m.entry(2, 2));
    assert_eq!(fx(1.0), m.entry(3, 3));
}

#[test]
fn access_rw() {
    let mut m = Mat4::i();
    m.set_entry(0, 0, fx(2.0));
    m.set_entry(1, 1, fx(2.0));
    m.set_entry(2, 2, fx(2.0));
    m.set_entry(3, 3, fx(2.0));
    m.set_entry(0, 0, fx(2.0));
    assert_eq!(fx(2.0), m.entry(0, 0));
}

#[test]
fn multiply_identity() {
    let i: Mat4 = Mat4::i();
    let result = i.multiply(&i);
    assert_eq!(i, result);
}

#[test]
fn look_at() {
    let pos = Vec4::position(fx(0.0), fx(0.0), fx(-10.0));
    let origin = Vec4::position(fx(0.0), fx(0.0), fx(0.0));
    let camera = Mat4::look(&pos, &origin);
    assert_eq!(FX_ONE, camera.entry(3, 3));
}

#[test]
fn multiply_identity_general() {
    let m = Mat4::translation(&Vec4::direction(fx(1.0), fx(2.0), fx(3.0)));
    assert_eq!(m, Mat4::i().multiply(&m));
    let s = Mat4::scale(&Vec4::direction(fx(2.0), fx(-3.0), fx(0.5)));
    assert_eq!(s, Mat4::i().multiply(&s));
}

#[test]
fn transform_identity() {
    let v = Vec4::position(fx(1.5), fx(-2.0), fx(7.0));
    assert_eq!(v, Mat4::i().transform(&v));
    let d = Vec4::direction(fx(-0.5), fx(3.0), fx(0.0));
    assert_eq!(d, Mat4::i().transform(&d));
}

#[test]
fn inverse_singular_is_identity() {
    let zero = Mat4::new();
    assert_eq!(Mat4::i(), zero.inverse());
}

#[test]
fn inverse_translation() {
    let t = Mat4::translation(&Vec4::direction(fx(1.0), fx(2.0), fx(3.0)));
    let expected = Mat4::translation(&Vec4::direction(fx(-1.0), fx(-2.0), fx(-3.0)));
    assert_eq!(expected, t.inverse());
}

#[test]
fn look_at_basis_orthonormal() {
    let eye = Vec4::position(fx(5.0), fx(5.0), fx(-10.0));
    let target = Vec4::position(fx(0.0), fx(0.0), fx(0.0));
    let camera = Mat4::look(&eye, &target);
    let right = Vec4::direction(camera.entry_flat(0), camera.entry_flat(4), camera.entry_flat(8));
    let up = Vec4::direction(camera.entry_flat(1), camera.entry_flat(5), camera.entry_flat(9));
    let fwd = Vec4::direction(camera.entry_flat(2), camera.entry_flat(6), camera.entry_flat(10));
    let tol = fx(0.01);
    assert!(near(right.mag(), fx(1.0), tol));
    assert!(near(up.mag(), fx(1.0), tol));
    assert!(near(fwd.mag(), fx(1.0), tol));
    assert!(near(right.dot_product(&up), 0, tol));
    assert!(near(right.dot_product(&fwd), 0, tol));
    assert!(near(up.dot_product(&fwd), 0, tol));
}

#[test]
fn cross_closure_scaled_axes() {
    let u = Vec4::direction(fx(1.0), fx(0.0), fx(0.0));
    let v = Vec4::direction(fx(0.0), fx(1.0), fx(0.0));
    let w = u.cross_product(&v);
    assert_eq!(u, v.cross_product(&w));
    assert_eq!(v, w.cross_product(&u));
}

#[test]
fn reverse_negates() {
    let u = Vec4::position(fx(1.0), fx(-2.0), fx(3.0));
    assert_eq!(Vec4::position(fx(-1.0), fx(2.0), fx(-3.0)), u.reverse());
    assert!(vec_near(u, u.reverse().reverse(), 0));
}

#[test]
fn as_direction_drops_tag() {
    let u = Vec4::position(fx(1.0), fx(2.0), fx(3.0));
    assert_eq!(Vec4::direction(fx(1.0), fx(2.0), fx(3.0)), u.as_direction());
}

#[test]
fn norm_scale_invariant_exact_family() {
    // components multiples of 1024 with a perfect-square length (3,0,4 -> 5)
    // and a whole-number factor: both sides normalize identically
    let v = Vec4::direction(1024 * 3, 0, 1024 * 4);
    let k = 7 * FX_ONE;
    assert_eq!(v.normalized(), v.scale(k).normalized());
}
