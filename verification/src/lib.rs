//! Validation core of a spectral ocean-wave simulator.
//!
//! The wave model proper works in floating point and therefore lives in the
//! surrounding application code; this crate holds the parts that decide
//! whether caller-supplied parameters are acceptable and which error each
//! rejection carries, with the contracts pinning the exact message for every
//! combination of failed constraints.

pub mod error;
pub mod validation;
