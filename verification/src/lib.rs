//! Math library: colors with hexadecimal codecs, integer vectors,
//! exact-arithmetic matrix and quaternion algebra, and a cached transform
//! state machine.

/// Hexadecimal codecs shared by the color types.
pub mod functions;

/// Standalone hexadecimal codec.
pub mod hexadecimal;

/// Byte-based color types.
pub mod color;

/// Color types: byte arrays and a packed 32-bit word.
pub mod types;

/// Core data structures: packed color, vectors, matrices, transform.
pub mod structs;


