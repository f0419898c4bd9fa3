//! The sending end of a channel.

use std::marker::PhantomData;
use vstd::prelude::*;
use crate::error::SdkError;
use crate::wire::message::Message;

verus! {

/// The frames of `queue`, oldest first.
pub open spec fn frames(queue: Seq<Vec<u8>>) -> Seq<Seq<u8>> {
    Seq::new(queue.len(), |i: int| queue[i]@)
}

/// Whether `taken` holds the frames `outbox`, one for one and in order.
pub open spec fn holds(taken: Seq<Vec<u8>>, outbox: Seq<Seq<u8>>) -> bool {
    &&& taken.len() == outbox.len()
    &&& forall|i: int| 0 <= i < taken.len() ==> (#[trigger] taken[i])@ == outbox[i]
}

/// Sends messages of type `T` on one topic.
///
/// A publisher is made uninitialized, and has to be initialized before the
/// first [`write`](Self::write). Written messages wait in the outbox, in the
/// order in which they were written, until the owner of the socket takes them
/// with [`take_outbox`](Self::take_outbox). The outbox holds as many frames
/// as its limit allows; a message that finds it full is not accepted.
pub struct ChannelPublisher<T> {
    topic: String,
    domain_id: i32,
    initialized: bool,
    limit: usize,
    outbox: Vec<Vec<u8>>,
    _phantom: PhantomData<T>,
}

impl<T> ChannelPublisher<T> {
    /// The name of the topic.
    pub closed spec fn topic(&self) -> Seq<char> {
        self.topic@
    }

    /// The domain of the topic.
    pub closed spec fn domain(&self) -> i32 {
        self.domain_id
    }

    /// Whether the publisher has been initialized.
    pub closed spec fn initialized(&self) -> bool {
        self.initialized
    }

    /// The frames that wait to be sent, oldest first.
    pub closed spec fn outbox(&self) -> Seq<Seq<u8>> {
        frames(self.outbox@)
    }

    /// The number of frames from which on the outbox accepts no more.
    pub closed spec fn limit(&self) -> nat {
        self.limit as nat
    }

    /// Whether the outbox accepts one more frame.
    pub open spec fn has_room(&self) -> bool {
        self.outbox().len() < self.limit()
    }

    /// An uninitialized publisher for the topic `topic` of domain 0, with
    /// nothing to send and the largest limit there is.
    pub fn new(topic: &str) -> (r: Self)
        ensures
            r.topic() == topic@,
            r.domain() == 0,
            !r.initialized(),
            r.outbox() == Seq::<Seq<u8>>::empty(),
            r.limit() == usize::MAX,
    {
        Self::in_domain(topic, 0)
    }

    /// An uninitialized publisher for the topic `topic` of domain
    /// `domain_id`, with nothing to send and the largest limit there is.
    pub fn in_domain(topic: &str, domain_id: i32) -> (r: Self)
        ensures
            r.topic() == topic@,
            r.domain() == domain_id,
            !r.initialized(),
            r.outbox() == Seq::<Seq<u8>>::empty(),
            r.limit() == usize::MAX,
    {
        let r = ChannelPublisher {
            topic: String::from_str(topic),
            domain_id,
            initialized: false,
            limit: usize::MAX,
            outbox: Vec::new(),
            _phantom: PhantomData,
        };
        assert(r.outbox() =~= Seq::<Seq<u8>>::empty());
        r
    }

    /// The name of the topic.
    pub fn topic_name(&self) -> (r: &str)
        ensures
            r@ == self.topic(),
    {
        self.topic.as_str()
    }

    /// The domain of the topic.
    pub fn domain_id(&self) -> (r: i32)
        ensures
            r == self.domain(),
    {
        self.domain_id
    }

    /// Whether the publisher has been initialized.
    pub fn is_initialized(&self) -> (r: bool)
        ensures
            r == self.initialized(),
    {
        self.initialized
    }

    /// Number of frames that wait to be sent.
    pub fn pending(&self) -> (r: usize)
        ensures
            r == self.outbox().len(),
    {
        self.outbox.len()
    }

    /// The number of frames from which on the outbox accepts no more.
    pub fn outbox_limit(&self) -> (r: usize)
        ensures
            r == self.limit(),
    {
        self.limit
    }

    /// Sets the number of frames from which on the outbox accepts no more.
    /// The frames that wait stay in the outbox, also where they are more
    /// than the new limit.
    pub fn set_outbox_limit(&mut self, limit: usize)
        ensures
            final(self).limit() == limit,
            final(self).initialized() == old(self).initialized(),
            final(self).topic() == old(self).topic(),
            final(self).domain() == old(self).domain(),
            final(self).outbox() == old(self).outbox(),
    {
        self.limit = limit;
    }

    /// Initializes the publisher. This always succeeds: on a publisher that
    /// is initialized already it changes nothing, and the frames that wait
    /// stay in the outbox.
    pub fn init_channel(&mut self) -> (r: Result<(), SdkError>)
        ensures
            r is Ok,
            final(self).initialized(),
            final(self).topic() == old(self).topic(),
            final(self).domain() == old(self).domain(),
            final(self).outbox() == old(self).outbox(),
            final(self).limit() == old(self).limit(),
    {
        self.initialized = true;
        Ok(())
    }

    /// Hands over the frames that wait to be sent, oldest first, and leaves
    /// the outbox empty.
    pub fn take_outbox(&mut self) -> (r: Vec<Vec<u8>>)
        ensures
            holds(r@, old(self).outbox()),
            final(self).outbox() == Seq::<Seq<u8>>::empty(),
            final(self).initialized() == old(self).initialized(),
            final(self).topic() == old(self).topic(),
            final(self).domain() == old(self).domain(),
            final(self).limit() == old(self).limit(),
    {
        let mut r: Vec<Vec<u8>> = Vec::new();
        std::mem::swap(&mut self.outbox, &mut r);
        assert(self.outbox() =~= Seq::<Seq<u8>>::empty());
        r
    }
}

impl<T: Message> ChannelPublisher<T> {
    /// Queues `msg` for sending, with its checksum brought up to date, and
    /// says whether it was accepted.
    ///
    /// Fails with `NotInitialized`, and changes nothing, on a publisher that
    /// was not initialized. Otherwise the result is `true` where the outbox
    /// has room: the frame of the message then joins the outbox behind the
    /// frames that wait there. It is `false`, and nothing changes, where the
    /// outbox is full. That a message was accepted says nothing of its
    /// delivery.
    pub fn write(&mut self, msg: &T) -> (r: Result<bool, SdkError>)
        ensures
            match r {
                Ok(accepted) => {
                    &&& old(self).initialized()
                    &&& accepted == old(self).has_room()
                    &&& final(self).outbox() == if accepted {
                        old(self).outbox().push(T::wire(T::sealed(msg.model())))
                    } else {
                        old(self).outbox()
                    }
                },
                Err(e) => {
                    &&& e == SdkError::NotInitialized
                    &&& !old(self).initialized()
                    &&& final(self).outbox() == old(self).outbox()
                },
            },
            final(self).initialized() == old(self).initialized(),
            final(self).topic() == old(self).topic(),
            final(self).domain() == old(self).domain(),
            final(self).limit() == old(self).limit(),
    {
        if !self.initialized {
            return Err(SdkError::NotInitialized);
        }
        if self.outbox.len() >= self.limit {
            return Ok(false);
        }
        let frame = msg.encode_sealed();
        self.outbox.push(frame);
        assert(self.outbox() =~= old(self).outbox().push(T::wire(T::sealed(msg.model()))));
        Ok(true)
    }
}

} // verus!
