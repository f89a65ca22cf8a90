//! A verified model of a synchronous "render and capture" test harness for a
//! retained-mode renderer.
//!
//! The harness submits display lists that place a cached blob image, waits for
//! frame-ready notifications in FIFO order, and reads back pixel regions. A
//! reference renderer model gives every operation an exact meaning, so the
//! harness's core regression property — drawing the same cached image at two
//! different positions yields two different pixel buffers — is a theorem here.

use vstd::prelude::*;

pub mod color;
pub mod geom;
pub mod harness;
pub mod raster;
pub mod renderer;
pub mod scene;
pub mod store;

verus! {

} // verus!
