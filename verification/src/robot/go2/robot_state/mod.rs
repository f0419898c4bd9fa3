//! The robot state service: the services that run on the robot.
//!
//! | Call | Arguments | Result |
//! |------|-----------|--------|
//! | `service_list` | `{}` | the list of services, see [`service_list`] |
//! | `service_switch` | `{"name":"NAME","switch":N}`, 1 to start and 0 to stop | none |
//! | `set_report_freq` | `{"interval":N,"duration":N}`, in milliseconds | none |
//!
//! [`robot_state_api`] lists the number of the method of each call.

pub mod robot_state_api;
pub mod robot_state_client;
pub mod service_list;

pub use robot_state_client::{RobotStateClient, ServiceModel, ServiceState, ServiceStatus};
