//! A small generative animation model: a handful of closed polygonal paths
//! whose vertices move with fixed velocities, bounce off the window edges,
//! and leave a short trail of their previous shapes behind.
//!
//! The library holds the whole model — motion, reflection, trail bookkeeping,
//! and the computation of the draw list — over integer coordinates. The
//! windowing host drives one update step and one display step per frame.

pub mod color;
pub mod geometry;
pub mod model;
pub mod path;
mod random;
