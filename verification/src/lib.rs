//! Column-major square matrices of dimension 2, 3 and 4 over an abstract scalar,
//! with the algebra that graphics and simulation code needs: construction,
//! composition, transposition, trace, determinant, inversion, and the
//! conversion of a rotation matrix into a quaternion.
//!
//! Every operation is a pure function of its arguments. What an operation
//! returns is stated over the scalar's own operations, so a contract says
//! which scalar operations are applied to which entries and in which order,
//! and holds of rounding arithmetic as it does of exact arithmetic. What is
//! true only where the scalars calculate exactly, such as that the inverse is
//! an inverse, is proved under that hypothesis.

pub mod mat2;
pub mod mat3;
pub mod mat4;
pub mod matrix;
pub mod quaternion;
pub mod scalar;
pub mod vector;
