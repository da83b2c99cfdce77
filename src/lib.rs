//! The discrete core of a small ray tracer: the bounce-depth policy of the
//! radiance integrator, nearest-hit selection over a world, the image grid
//! and its plain-text pixel-map encoding, and the demonstration scenes.
//! The floating-point geometry that these drive lives with the caller.
use vstd::prelude::*;

pub mod bounce;
pub mod closest;
pub mod image;
pub mod ppm;
pub mod scene;

verus! {

} // verus!
