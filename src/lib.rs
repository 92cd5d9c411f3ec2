//! Labeled one-dimensional arrays, verified with Verus.
pub mod data;
