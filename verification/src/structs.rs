//! Core data structures: packed color, integer and boolean vectors,
//! exact-arithmetic matrices with the cofactor machinery, exact-arithmetic
//! quaternions, and the cached transform.

/// Color packed into one 32-bit word, alpha-opaque constructors.
pub mod rgb;

/// 2-component boolean and integer vectors.
pub mod vector2;

/// 3-component boolean and integer vectors.
pub mod vector3;

/// 4-component boolean and integer vectors.
pub mod vector4;

/// 3 by 3 matrix over exact integer cells.
pub mod matrix3x3;

/// 4 by 4 matrix over exact integer cells, with the cofactor-expansion
/// machinery.
pub mod matrix4x4;

/// The adjugate law: the adjoint times the matrix is the determinant times
/// the identity.
pub mod adjugate;

/// Position, rotation and scale with cached derived state.
/// Quaternions over exact integer components.
pub mod quaternion;

/// Position, rotation and scale with cached derived state.
pub mod transform;
