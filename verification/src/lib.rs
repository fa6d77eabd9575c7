//! Numeric values tagged at compile time with a unit of measurement.

pub mod laws;
pub mod length;
pub mod numeric;
pub mod scale_factor;

pub use crate::length::Length;
pub use crate::scale_factor::ScaleFactor;
