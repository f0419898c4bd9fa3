//! The fragment of JSON that the services of the robot speak.
//!
//! The arguments of a call travel as a JSON object with the keys that the
//! method asks for: `x`, `y` and `z` for a vector, `value` for a number or a
//! flag. [`write`] builds those objects and [`read`] takes the results
//! apart. A number that is not whole is passed as the text of a JSON number,
//! a [`JsonNumber`]: the library carries such numbers and never computes
//! with them.

pub mod number;
pub mod read;
pub mod write;

pub use number::JsonNumber;
