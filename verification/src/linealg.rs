//! Linear-algebra value types: matrices of fixed and of run-time size, and
//! vectors and line segments.

pub mod matrix_algebra;
pub mod vector_algebra;
