//! Calls to a service of the robot.
//!
//! A call is a [`Request`] published on the request topic of a service and
//! answered, at some later time or never, by a [`Response`] on its reply
//! topic. Replies arrive in any order; the sequence number that a reply
//! carries, and nothing else, says which call it answers. [`RpcClient`] keeps
//! the calls that wait and matches the replies to them; [`calls`] states the
//! matching as a mathematical model, with its laws.

pub mod calls;
pub mod client;
pub mod frame;
pub mod pending;

pub use client::{Received, RpcClient};
pub use frame::{Request, RequestModel, Response, ResponseModel};
pub use pending::{CallStatus, PendingCalls};
