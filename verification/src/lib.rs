//! A thin, type-safe value type for a 128-bit SIMD lane register.
//!
//! The register holds four 32-bit lanes, lane 0 through lane 3 in fixed
//! order, packed into exactly 16 bytes aligned to 16 bytes. Each lane is
//! handled by its raw 32-bit pattern, so conversions are bit-exact: any
//! pattern round-trips unchanged through the array bridge.
//!
//! The crate also renders a register value as a parenthesized,
//! comma-separated list of its lanes in several numeric notations; the
//! notations that show a lane's raw pattern (binary, hexadecimal, octal)
//! are implemented and proved here.

#![allow(non_camel_case_types)]

pub mod m128_;
pub mod render;

pub use m128_::m128;
