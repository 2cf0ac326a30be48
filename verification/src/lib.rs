//! A signed-distance-field renderer core: homogeneous vector and 4x4 matrix
//! algebra, distance-field primitives and combinators, a sphere-tracing ray
//! caster, normal estimation and diffuse shading, all over a fixed-point
//! scalar so that every operation has an exact integer contract.

pub mod fixed;
pub mod matrix;
pub mod scene;
pub mod trace;
pub mod vector;
