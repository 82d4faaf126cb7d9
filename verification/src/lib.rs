//! A recursive, stochastic ray tracer: spheres with diffuse, reflective and
//! refractive materials, rendered by sampling camera rays per pixel and
//! integrating light transport through material scattering.
//!
//! Verus has no model of floating-point numbers, so every double in this
//! library is carried as its IEEE-754 bit pattern (`u64`). Arithmetic on
//! those patterns is done by a soft-float crate in pure integer code and is
//! named by uninterpreted spec functions (`fp`); comparison, negation,
//! absolute value and truncation are bit-field logic, verified here. On that
//! ground every contract states its result exactly: the root-selection
//! policy of the sphere test (`sphere`), the shrinking-interval nearest-hit
//! scan and its minimality laws (`hittable_list`), the face-normal rule
//! (`hittable`), the three-variant scattering model (`material`), the
//! background gradient and the bounded recursion of the integrator
//! (`render`), viewport derivation (`camera`), pixel finalization (`color`)
//! and the seeded generator behind all sampling (`rng`).

pub mod camera;
pub mod color;
pub mod fp;
pub mod hittable;
pub mod hittable_list;
pub mod sphere;
pub mod material;
pub mod ray;
pub mod render;
pub mod rng;
pub mod vec3;
