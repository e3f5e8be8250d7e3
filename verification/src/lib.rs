//! Bit-level core of a bit-flipping audio distortion effect.
//!
//! Samples are handled as the bit patterns of IEEE-754 single-precision
//! numbers, so every rule of the effect is a statement about 32-bit integers.

pub mod buffer;
pub mod button;
pub mod channel;
pub mod digit;
pub mod resample;
pub mod sample;
pub mod static_box;
pub mod text;
pub mod texture;
pub mod theme;
pub mod model;
