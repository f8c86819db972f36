//! A small ray-tracing engine: geometric primitives with surface materials,
//! viewed through a virtual camera, rendered into a 2D pixel buffer by
//! recursive ray tracing.
//!
//! All scalar quantities are fixed-point numbers (see [`fixed`]): an `i64`
//! holding the value scaled by `fixed::SCALE`.  Every arithmetic step is
//! total (division excepted) and exactly specified, so each component of the
//! engine carries a contract that pins its result down to the bit.

pub mod camera;
pub mod cylinder;
pub mod fixed;
pub mod hittable;
pub mod material;
pub mod ray;
pub mod rng;
pub mod sphere;
pub mod vec3;
pub mod world;
