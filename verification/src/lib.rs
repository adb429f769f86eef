//! Host-side state of a progressively accumulating path tracer.
//!
//! The crate holds everything the render loop decides on the host: how many
//! samples the accumulation image holds, when they are discarded, what the
//! uniform block handed to the rendering kernel looks like byte for byte, and
//! how input events map to camera operations.  Talking to the device and to
//! the window system is left to the program around it.
//!
//! Every real number that crosses this crate (camera position, basis vectors)
//! is carried as the bit pattern of an IEEE-754 single-precision value in a
//! `u32`.  The crate moves such patterns around, compares them and turns
//! their sign; it does no arithmetic on them.

pub mod bytes;
pub mod camera;
pub mod events;
pub mod render;
pub mod resources;
