//! Fixed-size vectors, square matrices and quaternions over an abstract
//! scalar, and a solver for linear systems by LU decomposition with partial
//! pivoting.
//!
//! The arithmetic of the element type is the trait [`Scalar`]; what machine
//! reals offer beyond it is the trait [`Real`]. The contracts say which
//! operations a function performs on which operands and in which order, so
//! they hold of rounding arithmetic as they stand. What only exact arithmetic
//! grants (that the factors multiply back to the matrix, that the solution
//! solves the system) is proved in [`exact`] of scalars that meet the laws of
//! a field; [`laws`] holds what is true of every scalar.

pub mod bit;
pub mod curve;
pub mod decomposition;
pub mod exact;
pub mod laws;
pub mod mat2;
pub mod mat3;
pub mod mat4;
pub mod quat;
pub mod scalar;
pub mod vec2;
pub mod vec3;
pub mod vec4;

pub use crate::bit::Bit;
pub use crate::curve::Curve;
pub use crate::decomposition::{Dimensional, Permute, SquareMatrix, Vector, Zero, LU};
pub use crate::mat2::Mat2;
pub use crate::mat3::Mat3;
pub use crate::mat4::Mat4;
pub use crate::quat::Quat;
pub use crate::scalar::{Real, Scalar};
pub use crate::vec2::Vec2;
pub use crate::vec3::Vec3;
pub use crate::vec4::Vec4;
