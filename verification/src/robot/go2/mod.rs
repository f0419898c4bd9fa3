//! Clients of the services of the Go2 quadruped.
//!
//! - [`sport`]: locomotion, postures and tricks ([`sport::SportClient`]).
//! - [`robot_state`]: the services that run on the robot
//!   ([`robot_state::RobotStateClient`]).

pub mod robot_state;
pub mod sport;
