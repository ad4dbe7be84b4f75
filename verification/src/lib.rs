//! Fixed-length heap arrays in one, two and three dimensions, and the matrix
//! and vector value types that are laid out on top of them.
//!
//! The library allocates and initialises storage; it does no arithmetic. The
//! element type is therefore left open wherever a value type holds numbers:
//! a constructor that needs a zero or a one is handed it by the caller.

pub mod custom_container;
pub mod linealg;
