//! Dense matrices over integer-like elements.
//!
//! A [`Matrix`] owns a row-major buffer of a fixed shape. [`multiply`]
//! computes the matrix product, or reports the shapes of operands whose
//! inner dimensions differ. `Matrix::display` and `Matrix::debug` render a
//! matrix as text.
//!
//! Every function is stated against a mathematical model: a matrix is
//! viewed as a [`grid::Grid`] of integers, on which [`grid::product`]
//! defines the matrix product and [`text::display_text`] the rendering.
//! [`algebra`] proves the product associative, and [`text`] proves that a
//! rendering has one brace block per row and one element per column.

pub mod decimal;
pub mod element;
pub mod grid;
pub mod algebra;
pub mod text;
pub mod matrix;

pub use crate::element::Element;
pub use crate::matrix::{multiply, product_in_range, Matrix, MatrixError};
