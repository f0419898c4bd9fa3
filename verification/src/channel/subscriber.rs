//! The receiving end of a channel.

use std::marker::PhantomData;
use vstd::prelude::*;
use crate::error::SdkError;
use crate::wire::message::Message;

verus! {

/// Where a subscriber stands in its life.
#[derive(Clone, Copy, Debug, PartialEq, Eq)]
pub enum ChannelState {
    /// Made, and never initialized.
    Uninitialized,
    /// Initialized: frames are delivered.
    Initialized,
    /// Closed: frames are ignored until the next initialization.
    Closed,
}

impl ChannelState {
    /// The state after an initialization, or `None` where the state does not
    /// allow one.
    pub open spec fn after_init(self) -> Option<ChannelState> {
        if self is Initialized {
            None
        } else {
            Some(ChannelState::Initialized)
        }
    }

    /// The state after a close.
    pub open spec fn after_close(self) -> ChannelState {
        ChannelState::Closed
    }

    /// A second initialization with no close between the two is refused,
    /// whatever the state before the first.
    pub proof fn lemma_init_twice(self)
        requires
            self.after_init() is Some,
        ensures
            self.after_init().unwrap().after_init() is None,
    {
    }

    /// After a close an initialization is allowed, whatever the state before
    /// the close.
    pub proof fn lemma_init_after_close(self)
        ensures
            self.after_close().after_init() == Some(ChannelState::Initialized),
    {
    }
}

/// The detail of the failure of a second initialization.
pub open spec fn already_initialized() -> Seq<char> {
    "Channel already initialized"@
}

/// Receives messages of type `T` on one topic.
///
/// The owner of the socket hands each frame that arrives on the topic to
/// [`deliver`](Self::deliver), in the order of arrival, and passes each
/// message that comes back to its handler. A frame that does not decode, or
/// whose checksum is wrong, is counted and dropped.
pub struct ChannelSubscriber<T> {
    topic: String,
    domain_id: i32,
    state: ChannelState,
    dropped: u64,
    _phantom: PhantomData<T>,
}

impl<T> ChannelSubscriber<T> {
    /// The name of the topic.
    pub closed spec fn topic(&self) -> Seq<char> {
        self.topic@
    }

    /// The domain of the topic.
    pub closed spec fn domain(&self) -> i32 {
        self.domain_id
    }

    /// Where the subscriber stands in its life.
    pub closed spec fn state(&self) -> ChannelState {
        self.state
    }

    /// Number of frames dropped since the last initialization.
    pub closed spec fn dropped(&self) -> nat {
        self.dropped as nat
    }

    /// An uninitialized subscriber for the topic `topic` of domain 0.
    pub fn new(topic: &str) -> (r: Self)
        ensures
            r.topic() == topic@,
            r.domain() == 0,
            r.state() == ChannelState::Uninitialized,
            r.dropped() == 0,
    {
        Self::in_domain(topic, 0)
    }

    /// An uninitialized subscriber for the topic `topic` of domain
    /// `domain_id`.
    pub fn in_domain(topic: &str, domain_id: i32) -> (r: Self)
        ensures
            r.topic() == topic@,
            r.domain() == domain_id,
            r.state() == ChannelState::Uninitialized,
            r.dropped() == 0,
    {
        ChannelSubscriber {
            topic: String::from_str(topic),
            domain_id,
            state: ChannelState::Uninitialized,
            dropped: 0,
            _phantom: PhantomData,
        }
    }

    /// The name of the topic.
    pub fn topic_name(&self) -> (r: &str)
        ensures
            r@ == self.topic(),
    {
        self.topic.as_str()
    }

    /// The domain of the topic.
    pub fn domain_id(&self) -> (r: i32)
        ensures
            r == self.domain(),
    {
        self.domain_id
    }

    /// Where the subscriber stands in its life.
    pub fn current_state(&self) -> (r: ChannelState)
        ensures
            r == self.state(),
    {
        self.state
    }

    /// Whether frames are delivered.
    pub fn is_running(&self) -> (r: bool)
        ensures
            r == (self.state() is Initialized),
    {
        match self.state {
            ChannelState::Initialized => true,
            _ => false,
        }
    }

    /// Number of frames dropped since the last initialization; it stops
    /// counting at the largest number it can hold.
    pub fn dropped_frames(&self) -> (r: u64)
        ensures
            r == self.dropped(),
    {
        self.dropped
    }

    /// Starts the delivery of frames, with no frame counted as dropped.
    ///
    /// Fails with `Init`, and changes nothing, on a subscriber that is
    /// initialized and was not closed since.
    pub fn init_channel(&mut self) -> (r: Result<(), SdkError>)
        ensures
            match r {
                Ok(_) => {
                    &&& old(self).state().after_init() == Some(final(self).state())
                    &&& final(self).dropped() == 0
                },
                Err(e) => {
                    &&& old(self).state().after_init() is None
                    &&& e is Init
                    &&& e.detail() == already_initialized()
                    &&& final(self).state() == old(self).state()
                    &&& final(self).dropped() == old(self).dropped()
                },
            },
            final(self).topic() == old(self).topic(),
            final(self).domain() == old(self).domain(),
    {
        match self.state {
            ChannelState::Initialized => Err(
                SdkError::Init(String::from_str("Channel already initialized")),
            ),
            _ => {
                self.state = ChannelState::Initialized;
                self.dropped = 0;
                Ok(())
            },
        }
    }

    /// Stops the delivery of frames. The count of dropped frames stays as it
    /// is until the next initialization.
    pub fn close_channel(&mut self)
        ensures
            final(self).state() == old(self).state().after_close(),
            final(self).dropped() == old(self).dropped(),
            final(self).topic() == old(self).topic(),
            final(self).domain() == old(self).domain(),
    {
        self.state = ChannelState::Closed;
    }
}

/// What a subscriber in state `state` makes of `frame`: the message to hand
/// to the handler, or `None` for a frame that it ignores or drops.
pub open spec fn delivered<T: Message>(state: ChannelState, frame: Seq<u8>) -> Option<T::Model> {
    if state is Initialized && accepted::<T>(frame) {
        T::parse(frame)
    } else {
        None
    }
}

/// Whether `frame` carries a message of type `T` with a checksum that is up
/// to date.
pub open spec fn accepted<T: Message>(frame: Seq<u8>) -> bool {
    T::parse(frame) matches Some(m) && T::sealed(m) == m
}

/// The count of dropped frames after one more frame.
pub open spec fn dropped_after<T: Message>(state: ChannelState, dropped: nat, frame: Seq<u8>) -> nat {
    if state is Initialized && !accepted::<T>(frame) && dropped < u64::MAX {
        dropped + 1
    } else {
        dropped
    }
}

impl<T: Message> ChannelSubscriber<T> {
    /// Takes one frame that arrived on the topic.
    ///
    /// On an initialized subscriber a frame that carries a message with a
    /// correct checksum gives that message; any other frame is dropped and
    /// counted. A subscriber that is not initialized ignores the frame. The
    /// state stays as it is either way.
    pub fn deliver(&mut self, frame: &[u8]) -> (r: Option<T>)
        ensures
            match r {
                Some(m) => delivered::<T>(old(self).state(), frame@) == Some(m.model()),
                None => delivered::<T>(old(self).state(), frame@) is None,
            },
            final(self).dropped() == dropped_after::<T>(
                old(self).state(),
                old(self).dropped(),
                frame@,
            ),
            final(self).state() == old(self).state(),
            final(self).topic() == old(self).topic(),
            final(self).domain() == old(self).domain(),
    {
        match self.state {
            ChannelState::Initialized => {},
            _ => {
                return None;
            },
        }
        match T::decode(frame) {
            Ok(m) => {
                if m.is_intact() {
                    return Some(m);
                }
            },
            Err(_) => {},
        }
        if self.dropped < u64::MAX {
            self.dropped = self.dropped + 1;
        }
        None
    }
}

impl<T: Message> ChannelSubscriber<T> {
    /// Takes one frame that arrived on the topic, hands the message that it
    /// carries to `handler`, and says whether it did.
    ///
    /// The handler is called once for a frame that [`deliver`](Self::deliver)
    /// gives a message for, and not at all for any other frame. It runs on
    /// the thread of the caller: one that blocks holds up the delivery of
    /// this subscriber, and of no other.
    pub fn dispatch<F: Fn(&T)>(&mut self, frame: &[u8], handler: &F) -> (r: bool)
        requires
            forall|m: &T| #[trigger] handler.requires((m,)),
        ensures
            r == delivered::<T>(old(self).state(), frame@) is Some,
            final(self).dropped() == dropped_after::<T>(
                old(self).state(),
                old(self).dropped(),
                frame@,
            ),
            final(self).state() == old(self).state(),
            final(self).topic() == old(self).topic(),
            final(self).domain() == old(self).domain(),
    {
        match self.deliver(frame) {
            Some(m) => {
                handler(&m);
                true
            },
            None => false,
        }
    }
}

/// A frame that a publisher wrote is one that an initialized subscriber of
/// the same type delivers: as the sealed form of the message written.
pub proof fn lemma_written_is_delivered<T: Message>(m: T::Model)
    ensures
        delivered::<T>(ChannelState::Initialized, T::wire(T::sealed(m))) == Some(T::sealed(m)),
{
    T::lemma_parse_wire(T::sealed(m));
    T::lemma_sealed_twice(m);
}

} // verus!
