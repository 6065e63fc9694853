//! Frame orchestration and skeletal animation core for an XR rendering engine.
//!
//! The crate tracks the lifecycle of a headset session, drives the strict
//! begin/end frame protocol of the compositor, schedules a fixed pipeline of
//! simulation stages once per frame, and routes the per-joint skinning
//! computation. Device calls and floating-point matrix arithmetic are
//! performed by the embedding application; this crate makes every decision
//! about ordering, pairing and data flow, and proves those decisions correct.

pub mod context;
pub mod frame;
pub mod mat;
pub mod material;
pub mod schedule;
pub mod session;
pub mod skinning;
pub mod world;

use vstd::prelude::*;

verus! {

/// Number of eyes, and so of composition layers, submitted each frame.
pub const VIEW_COUNT: u32 = 2;

} // verus!
