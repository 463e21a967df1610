//! An algebra of homotopies: continuous deformations between two functions.
//!
//! A homotopy connects a start function `f` and an end function `g` through a
//! third function `h` over an extra interpolation parameter, subject to the
//! boundary contract `h(x, 0) == f(x)` and `h(x, 1) == g(x)`. The crate builds
//! higher-dimensional homotopies from lower-dimensional ones (products,
//! sequential composition, lifts), extracts lower-dimensional ones (faces,
//! slices, diagonals), adapts shapes, and proves that every combinator
//! preserves the boundary contract by construction.
//!
//! Parameters are exact rational scalars in the unit interval, and values are
//! exact rationals as well, so the boundary contract is an exact statement
//! rather than a floating-point approximation.

pub mod rat;
pub mod space;
pub mod axes;
pub mod homotopy;
pub mod prim;
pub mod sides;
pub mod checks;
pub mod tuples;
pub mod cubes;
pub mod compose;
pub mod transform;
pub mod maps;
pub mod adapt;
pub mod circle;
pub mod laws;
