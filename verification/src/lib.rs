//! A two-dimensional grid coordinate with verified neighbourhood and distance operations.

pub mod coord;
pub mod plane;
pub mod scalar;

pub use crate::coord::Coord;
pub use crate::plane::Point;
pub use crate::scalar::GridInt;
