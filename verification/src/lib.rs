//! The verified core of an SDK for Unitree quadruped robots.
//!
//! The crate decides what travels between a program and a robot: how a
//! message is laid out in bytes, when a channel accepts a message, which
//! reply answers which call, and what a command of the robot says on the
//! wire. It does no input or output, starts no thread and reads no clock, so
//! that its functions can be proved, with
//! [Verus](https://verus-lang.github.io/verus), against the contracts that
//! they carry. Code that owns a socket drives it:
//!
//! ```text
//!   command --> SportClient --> RpcClient --> ChannelPublisher --> outbox --> socket
//!   result  <-- poll        <-- RpcClient <-- ChannelSubscriber <-- frame  <-- socket
//! ```
//!
//! - [`wire`]: the binary layout of messages, proved to read back what was
//!   written, and the checksum that closes a frame.
//! - [`idl`]: the messages of the robot: motor commands and states, the
//!   inertial unit, the battery, sport-mode telemetry.
//! - [`channel`]: typed publishers and subscribers, as state machines over
//!   frames.
//! - [`rpc`]: calls to a service of the robot, matched to their replies by
//!   sequence number, with a timeout.
//! - [`json`]: the JSON objects that carry the arguments and results of
//!   calls.
//! - [`robot`]: one method for each command of the sport service and of the
//!   robot state service.
//! - [`error`]: the failures that the library reports.
//! - [`text`]: decimal numerals and ASCII text.
//!
//! Numbers with a fraction never take part in a computation here. A message
//! carries them as their 32 bits ([`wire::float::Float32`]), and a call as
//! the text of a JSON number ([`json::JsonNumber`]).
//!
//! One thing is taken on trust beyond what `vstd` says of the standard
//! library: that `String::from_utf8` gives the text of valid UTF-8 and
//! refuses all other bytes. The conversion stands in [`text`].

pub mod channel;
pub mod error;
pub mod idl;
pub mod json;
pub mod robot;
pub mod rpc;
pub mod text;
pub mod wire;
