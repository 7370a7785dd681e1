//! Color types: byte-array colors and a packed 32-bit color.

/// Color stored as a 3-byte array, with named color constructors.
pub mod rgb8;

/// Color stored as a 4-byte array, with named color constructors.
pub mod rgba8;

/// Color packed into one 32-bit word.
pub mod rgb;
