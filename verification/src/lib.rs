//! A small recursive ray tracer over deterministic fixed-point arithmetic.
//!
//! A scene is an ordered list of primitives (spheres and planes), each
//! carrying a surface that is either emissive (`Light`) or reflective
//! (`Bounce`). One camera ray is cast per pixel; the nearest valid hit is
//! selected by a linear scan, and the outgoing color is computed by a
//! recursive bounce function with an explicit depth budget.
//!
//! All scalars are fixed-point numbers: an `i64` holding 16 fractional
//! bits (see [`fixed::FX_ONE`]). Every arithmetic operation has an exact
//! integer specification, so rendering is fully deterministic.

pub mod builder;
pub mod color;
pub mod laws;
pub mod render;
pub mod fixed;
pub mod scene;
pub mod vector;
