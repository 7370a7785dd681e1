//! Byte-based color types with hexadecimal codecs.

/// Colors stored as 3- and 4-byte arrays.
pub mod rgb8;
