//! Host-side orchestration core of a progressive GPU path tracer.
//!
//! This crate holds the verified logic of the renderer: the fixed-capacity
//! triangle table and its padding discipline, the scene bounding box, the
//! byte layout of every record the GPU kernel reads, and the frame/session
//! state machine that alternates the two accumulation buffers. Scalars that
//! the GPU consumes as 32-bit floats are carried here as their IEEE-754 bit
//! patterns (`u32` words); all arithmetic on them in this crate is ordering
//! and layout, never floating-point evaluation.

pub mod layout;
pub mod load;
pub mod render;
pub mod types;

use vstd::prelude::*;

verus! {

/// Number of triangle records the GPU-side table is compiled for.
/// The uploaded table always holds exactly this many records.
pub const TRIANGLE_CAPACITY: usize = 1000;

} // verus!
