//! Exact 2D path segments under chained affine transforms.
//!
//! A point is a complex number: the real part is the x-coordinate, the
//! imaginary part the y-coordinate. Coordinates are integers, so every
//! transform — translation, rotation by quarter turns (through complex
//! multiplication), axis-wise scaling — is exact, and its effect on each
//! defining point is stated and proved, not approximated.

pub mod complex;
pub mod laws;
pub mod segment;
