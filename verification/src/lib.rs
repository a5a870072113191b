//! A sequential optical system model: spherical and flat refractive surfaces
//! between an object plane and an image plane, a surface-by-surface ray
//! tracer, a fan evaluator that samples a one-parameter family of rays, and a
//! bracket-narrowing root search that locates the ray whose height at the
//! final surface crosses zero.
//!
//! All scalars are fixed-point: an `i64` counts billionths of a unit (see
//! [`fixed::SCALE`]), so every arithmetic step is exact integer work with an
//! explicit out-of-range outcome instead of silent rounding surprises.

pub mod fan;
pub mod fixed;
pub mod intersection;
pub mod object;
pub mod query;
pub mod ray;
pub mod raytracing;
pub mod search;
pub mod surface;
pub mod system;
pub mod vector;

pub use fixed::SCALE;
