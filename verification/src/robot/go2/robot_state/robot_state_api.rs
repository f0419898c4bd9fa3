//! The name of the robot state service and the numbers of its methods.

use vstd::prelude::*;

verus! {

/// Name of the robot state service.
pub const ROBOT_STATE_SERVICE_NAME: &'static str = "robot_state";

/// Version of the interface of the robot state service.
pub const ROBOT_STATE_API_VERSION: &'static str = "1.0.0.1";

/// List the services.
pub const ROBOT_STATE_API_ID_SERVICE_LIST: i32 = 1;

/// Start or stop a service.
pub const ROBOT_STATE_API_ID_SERVICE_SWITCH: i32 = 2;

/// Set how often the state is reported.
pub const ROBOT_STATE_API_ID_SET_REPORT_FREQ: i32 = 3;

/// The numbers of the methods grow in the order of this list: no two
/// methods share a number.
pub proof fn lemma_method_numbers_grow()
    ensures
        ROBOT_STATE_API_ID_SERVICE_LIST < ROBOT_STATE_API_ID_SERVICE_SWITCH
            < ROBOT_STATE_API_ID_SET_REPORT_FREQ,
{
}

} // verus!
