//! A compact binary codec for scalars, vectors, quaternions and packed
//! boolean arrays, with fixed little-endian layouts.
//!
//! Floating-point values travel through this library as their IEEE-754 bit
//! patterns (`f32::to_bits`, `f64::to_bits`), so the byte layouts are exact.

pub mod le_bytes;
pub mod bit_pack;
pub mod codec;

pub use codec::{QuatBits, Serde, Vector2Bits, Vector3Bits};
