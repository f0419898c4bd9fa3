//! Clients of the services of a robot, by robot model.

pub mod go2;
