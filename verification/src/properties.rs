//! Properties derived from the hardware states of the LIS3DH.
//!
//! A property has no lifecycle of its own: it is recomputed from the active
//! configuration whenever it is needed.

pub mod gravity_coefficient;
pub mod resolution;
