//! Decision logic of a small axis-aligned-box ray tracer.
//!
//! Everything here works on plain values: the geometry itself is computed in
//! floating point by the caller, which hands over *ranks* of those numbers
//! (see [`rank`]) wherever a decision only compares them.
pub mod rank;
pub mod slab;
pub mod faces;
pub mod hits;
pub mod shading;
pub mod frame;
pub mod controls;


