//! Evenly spaced, human-friendly tick values between two numbers, for axis labels and
//! grid lines.
//!
//! The computation is generic over [`scalar::Scalar`], the arithmetic that it needs
//! from a number type. Each operation of that trait is named by a spec function, and
//! the functions of this crate are proved to return exactly what those operations
//! compose to.

pub mod scalar;
pub mod increment;
pub mod ticks;

pub use increment::{tick_increment, Increment};
pub use scalar::Scalar;
pub use ticks::ticks;

