//! The sport service: locomotion, postures, gestures and tricks.
//!
//! Each command is one call. Its arguments travel as a JSON object, and its
//! reply carries a result code: zero for success, or the code with which the
//! service refused.
//!
//! | Commands | Arguments |
//! |----------|-----------|
//! | `euler`, `move_cmd` | `{"x":X,"y":Y,"z":Z}`, three JSON numbers |
//! | `speed_level` | `{"value":N}`, a whole number |
//! | `switch_joystick`, `pose`, `hand_stand`, `free_bound`, `free_jump`, `free_avoid`, `classic_walk`, `walk_upright`, `cross_step`, `auto_recover_set` | `{"value":N}`, 1 for on and 0 for off |
//! | all others | `{}` |
//!
//! The reply to `auto_recover_get` carries the flag as `{"data":true}` or
//! `{"data":false}`. The replies to the other commands carry no result.
//! [`sport_api`] lists the number of the method of each command.

pub mod sport_api;
pub mod sport_client;

pub use sport_client::SportClient;
