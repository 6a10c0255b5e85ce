//! Procedural water surface with projected caustics.
//!
//! The crate models the compute side of a water renderer: an analytic
//! wave field (height and normal per world position and time), the affine
//! world-to-texture mapping used to sample a top-down caustics image, a
//! deterministic binding-slot composition scheme for layered materials,
//! an offscreen caustics pass that fills a texture, an underwater
//! compositing shade that reads it back, and the frame scheduler that
//! orders the two passes.  All quantities are 16.16 fixed-point integers,
//! so every formula is exact and provable.

pub mod compose;
pub mod fixed;
pub mod mapper;
pub mod pipeline;
pub mod vector;
pub mod water;
