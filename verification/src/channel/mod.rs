//! Typed publish/subscribe channels.
//!
//! A channel binds a topic, that is a name within a domain, to one direction
//! and to one type of message. The channels here do no input or output of
//! their own: a [`ChannelPublisher`] turns messages into frames and queues
//! them for whoever owns the socket, and a [`ChannelSubscriber`] turns the
//! frames that its owner received back into messages.
//!
//! - [`ChannelFactory`] holds the domain and the network interface, and makes
//!   channels bound to them.
//! - [`ChannelPublisher`] frames messages of one type for one topic.
//! - [`ChannelSubscriber`] checks and decodes the frames of one topic.
//!
//! # Initialization
//!
//! A channel is made uninitialized. The two kinds differ in what a second
//! initialization does, and they differ on purpose:
//!
//! - A publisher owns nothing but its outbox. Initializing it again changes
//!   nothing and succeeds, so that code which cannot know whether a
//!   publisher was initialized may simply initialize it.
//! - A subscriber stands for a delivery task. Initializing it while that
//!   task runs would start a second one, so it fails with `Init` until the
//!   subscriber was closed. After a close it starts afresh.
//!
//! # Delivery
//!
//! Publishing is fire and forget: a message that was accepted may get lost,
//! arrives at most once, and arrives after the messages that the same
//! publisher wrote before it; the messages of different publishers come in
//! no particular order. A subscriber delivers in the order in which its
//! owner hands it the frames.
//!
//! # Ownership
//!
//! A channel belongs to one owner, and code that shares one between threads
//! has to serialize its calls. Of the publishers of one topic only one
//! should be initialized at a time within a process; the number of its
//! subscribers is free. The channels do not know of each other, so this is
//! for their owner to see to.

pub mod factory;
pub mod publisher;
pub mod subscriber;

pub use factory::ChannelFactory;
pub use publisher::ChannelPublisher;
pub use subscriber::{ChannelState, ChannelSubscriber};
