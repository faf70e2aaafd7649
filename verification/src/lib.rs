//! Dimensional-analysis framework: physical quantities as typed wrappers over
//! an exact scalar, with verified unit conversions and a verified
//! cross-dimension operation graph.

pub mod convert;
pub mod dimension;
pub mod dimensions;
pub mod gcd;
pub mod laws;
pub mod ops;
pub mod quantity;
pub mod ratio;
pub mod rational;
pub mod scalar;
