//! Halftone rendering of the color channels of an image.
//!
//! Each channel is smoothed, upsampled, and covered with a grid of dots
//! turned by the channel's own screen angle; the size and gray value of each
//! dot follow the sample under it. This crate decides everything that is not
//! image filtering or drawing: which channels and sizes are accepted, how
//! each channel is set up, and which dot goes where.
use vstd::prelude::*;

pub mod angle;
pub mod channel;
pub mod dot;
pub mod plane;
pub mod render;

verus! {

} // verus!
