//! Helper functions: hexadecimal encoding and decoding.

/// Hexadecimal encoding and decoding of byte arrays and color triples.
pub mod hexadecimal;
