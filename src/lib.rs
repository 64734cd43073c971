//! Elliptic-curve private keys and key agreement over a closed set of curves.
//!
//! Curve-specific arithmetic is supplied through [`ec::CurveOps`]; this crate
//! holds the sizes, the key containers and the validation and dispatch logic
//! that stand between untrusted bytes and that arithmetic.

pub mod ec;
pub mod error;
pub mod input;
pub mod rand;
