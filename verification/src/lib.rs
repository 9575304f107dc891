//! A verified core for a bridge to reference-counted pixel buffers that a
//! foreign multimedia runtime owns.
//!
//! The bridge itself crosses into the foreign runtime; this crate holds every
//! decision that the bridge takes on the way. Each operation is cut at the
//! foreign call: one function states what to call the runtime with, another
//! takes what the runtime answered and says what the caller gets.

pub mod cv_pixel_buffer;
pub mod cv_pixel_buffer_planar_data;
