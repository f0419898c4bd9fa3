//! The names of the topics on which the messages travel.
//!
//! The topics of commands and telemetry are named `rt/` and a name; the
//! topics of a service are derived from the name of the service, see
//! [`crate::rpc`].

use vstd::prelude::*;

verus! {

/// The topic of the low-level commands, [`LowCmd`](super::LowCmd).
pub const TOPIC_LOW_CMD: &'static str = "rt/lowcmd";

/// The topic of the low-level state, [`LowState`](super::LowState).
pub const TOPIC_LOW_STATE: &'static str = "rt/lowstate";

} // verus!
