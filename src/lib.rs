//! Verified operation-dispatch core for an arbitrary-precision binary
//! floating-point value type whose arithmetic is done by a native engine.
//!
//! The library decides, for every operation, which engine routine runs, on
//! which arguments, into which destination record, at which precision and
//! with which rounding mode; it also owns the engine's text protocols and the
//! mapping of its three-way comparison onto Rust's ordering.
pub mod compare;
pub mod dispatch;
pub mod laws;
pub mod rounding;
pub mod text;
