//! Closed, bounded intervals with 32-bit floating-point endpoints, packed
//! into a single 64-bit word.
//!
//! Endpoints are carried everywhere as their IEEE-754 binary32 bit patterns
//! (`u32`), so that ordering, validation, packing and the interval algebra
//! can be specified and verified over plain integers. The scalar
//! floating-point arithmetic that produces new endpoint values is left to
//! the caller, which hands the resulting bit patterns back in.

pub mod fbits;
pub mod interval;
pub mod laws;
