//! The configuration that channels are made from.

use vstd::prelude::*;
use crate::channel::{ChannelPublisher, ChannelSubscriber};

verus! {

/// The domain and the network interface of a process, and the maker of its
/// channels.
///
/// A process keeps one factory. It configures it once, at startup and before
/// it makes a channel, and then makes every channel from it.
pub struct ChannelFactory {
    /// The domain that the channels belong to.
    pub domain_id: i32,
    /// The name of the network interface, such as `eth0`.
    pub network_interface: String,
}

impl ChannelFactory {
    /// The factory as a process starts with it: domain 0, no interface.
    pub fn instance() -> (r: Self)
        ensures
            r.domain_id == 0,
            r.network_interface@ == Seq::<char>::empty(),
    {
        ChannelFactory { domain_id: 0, network_interface: String::new() }
    }

    /// Configures the factory. The last call decides: what an earlier call
    /// set is gone.
    pub fn init(&mut self, domain_id: i32, network_interface: &str)
        ensures
            final(self).domain_id == domain_id,
            final(self).network_interface@ == network_interface@,
    {
        self.domain_id = domain_id;
        self.network_interface = String::from_str(network_interface);
    }

    /// An uninitialized publisher for the topic `topic` of the factory's
    /// domain, with nothing to send and the largest limit there is.
    pub fn create_publisher<T>(&self, topic: &str) -> (r: ChannelPublisher<T>)
        ensures
            r.topic() == topic@,
            r.domain() == self.domain_id,
            !r.initialized(),
            r.outbox() == Seq::<Seq<u8>>::empty(),
            r.limit() == usize::MAX,
    {
        ChannelPublisher::in_domain(topic, self.domain_id)
    }

    /// An uninitialized subscriber for the topic `topic` of the factory's
    /// domain.
    pub fn create_subscriber<T>(&self, topic: &str) -> (r: ChannelSubscriber<T>)
        ensures
            r.topic() == topic@,
            r.domain() == self.domain_id,
            r.state() == crate::channel::ChannelState::Uninitialized,
            r.dropped() == 0,
    {
        ChannelSubscriber::in_domain(topic, self.domain_id)
    }
}

} // verus!
