//! Constant-time group-element support for the binary curves xsk233 and xsb233.
//!
//! The library holds the parts of the point layer that do not depend on the
//! native arithmetic engine: the bridge between the engine's all-bits flags and
//! single-bit constant-time booleans, the fixed-width scalar type, and the
//! rejection-sampling search that maps uniform bytes to a curve encoding.

pub mod choice;
pub mod map_to_curve;
pub mod scalar;

pub use choice::{from_choice, to_choice};
pub use map_to_curve::MapToCurve;
pub use scalar::Scalar;
