//! The messages exchanged with a robot, by robot model.

pub mod go2;
