//! The client side of calls to one service.

use vstd::prelude::*;
use vstd::utf8::encode_utf8;
use crate::channel::factory::ChannelFactory;
use crate::channel::publisher::{holds, ChannelPublisher};
use crate::channel::subscriber::{
    already_initialized, delivered, dropped_after, ChannelState, ChannelSubscriber,
};
use crate::error::SdkError;
use crate::rpc::calls::{answered, awaits, deadline_of, outcome, SlotModel};
use crate::rpc::frame::{Request, RequestModel, Response, ResponseModel};
use crate::rpc::pending::{CallStatus, PendingCalls};
use crate::wire::message::Message;

verus! {

/// The timeout of a client that was given none, in units of the caller's
/// clock.
pub const DEFAULT_TIMEOUT: u64 = 10;

/// What a client made of a frame that arrived on the reply topic.
#[derive(Debug, Clone, Copy, PartialEq, Eq)]
pub enum Received {
    /// The frame is the reply to the call with this sequence number, which
    /// waited for it.
    Answer(u64),
    /// The frame is a reply that nobody waits for: to a call that was never
    /// made, that was answered, cancelled or collected before, or whose time
    /// was up.
    Stale,
    /// The frame carries no reply, or was not wanted: the subscriber dropped
    /// or ignored it.
    Rejected,
}

/// The detail of the failure of a call for which no sequence number is left.
pub open spec fn exhausted() -> Seq<char> {
    "sequence numbers exhausted"@
}

/// The detail of the failure of a call whose request finds the outbox full.
pub open spec fn congested() -> Seq<char> {
    "outbox full"@
}

/// The name of the topic on which the requests to `service` travel.
pub open spec fn request_topic(service: Seq<char>) -> Seq<char> {
    "rt/api/"@ + service + "/request"@
}

/// The name of the topic on which the replies of `service` travel.
pub open spec fn response_topic(service: Seq<char>) -> Seq<char> {
    "rt/api/"@ + service + "/response"@
}

/// Makes calls to one service and matches the replies to them.
///
/// The client does no input or output and reads no clock. Its owner passes
/// the time with each call, sends the frames of the outbox, and hands in the
/// frames that arrive on the reply topic:
///
/// 1. [`call`](Self::call) queues a request and gives its sequence number.
/// 2. [`take_outbox`](Self::take_outbox) gives the frames to send.
/// 3. [`receive`](Self::receive) takes each frame that arrived.
/// 4. [`poll`](Self::poll) tells whether the call is over, and how.
///
/// Any number of calls may wait at one time; each has a sequence number of
/// its own. A call is made at most once: the client sends no request twice,
/// and a caller that finds `Timeout` does not know whether the robot acted.
pub struct RpcClient {
    timeout: u64,
    pending: PendingCalls,
    requests: ChannelPublisher<Request>,
    responses: ChannelSubscriber<Response>,
}

impl RpcClient {
    /// The time that a call waits for its reply.
    pub closed spec fn timeout(&self) -> u64 {
        self.timeout
    }

    /// The sequence number of the next call.
    pub closed spec fn next(&self) -> u64 {
        self.pending.next()
    }

    /// The calls that were made and not yet collected.
    pub closed spec fn calls(&self) -> Map<u64, SlotModel> {
        self.pending.calls()
    }

    /// Where the reply channel of the client stands in its life.
    pub closed spec fn state(&self) -> ChannelState {
        self.responses.state()
    }

    /// Whether the request channel of the client was initialized.
    pub closed spec fn sending(&self) -> bool {
        self.requests.initialized()
    }

    /// Whether the client makes calls: it was initialized, and not closed
    /// since.
    pub open spec fn ready(&self) -> bool {
        self.state() is Initialized && self.sending()
    }

    /// The request frames that wait to be sent, oldest first.
    pub closed spec fn outbox(&self) -> Seq<Seq<u8>> {
        self.requests.outbox()
    }

    /// The number of frames from which on the outbox accepts no more.
    pub closed spec fn limit(&self) -> nat {
        self.requests.limit()
    }

    /// Whether the outbox accepts one more request.
    pub open spec fn has_room(&self) -> bool {
        self.outbox().len() < self.limit()
    }

    /// The domain of the two topics of the client.
    pub closed spec fn domain(&self) -> i32 {
        self.requests.domain()
    }

    /// The name of the topic on which the requests travel.
    pub closed spec fn request_topic(&self) -> Seq<char> {
        self.requests.topic()
    }

    /// The name of the topic on which the replies travel.
    pub closed spec fn response_topic(&self) -> Seq<char> {
        self.responses.topic()
    }

    /// Number of frames of the reply topic that were dropped since the last
    /// initialization.
    pub closed spec fn dropped(&self) -> nat {
        self.responses.dropped()
    }

    /// What `set_timeout` does: the timeout is `timeout`, and nothing else
    /// changes.
    pub open spec fn retimed(before: Self, after: Self, timeout: u64) -> bool {
        &&& after.timeout() == timeout
        &&& after.next() == before.next()
        &&& after.calls() == before.calls()
        &&& after.state() == before.state()
        &&& after.sending() == before.sending()
        &&& after.outbox() == before.outbox()
        &&& after.limit() == before.limit()
        &&& after.bound_as(before)
        &&& after.dropped() == before.dropped()
    }

    /// What `set_outbox_limit` does: the limit of the outbox is `limit`, and
    /// nothing else changes.
    pub open spec fn relimited(before: Self, after: Self, limit: usize) -> bool {
        &&& after.limit() == limit
        &&& after.bound_as(before)
        &&& after.timeout() == before.timeout()
        &&& after.next() == before.next()
        &&& after.calls() == before.calls()
        &&& after.state() == before.state()
        &&& after.sending() == before.sending()
        &&& after.outbox() == before.outbox()
        &&& after.dropped() == before.dropped()
    }

    /// What `init` does. A client whose reply channel is initialized and was
    /// not closed since refuses with `Init`, and stays as it is; any other
    /// client is ready from now on, with no frame counted as dropped.
    /// Timeout, calls and outbox stay as they are.
    pub open spec fn initialized(before: Self, after: Self, r: Result<(), SdkError>) -> bool {
        &&& match r {
            Ok(_) => {
                &&& before.state().after_init() == Some(after.state())
                &&& after.ready()
                &&& after.dropped() == 0
            },
            Err(e) => {
                &&& before.state().after_init() is None
                &&& e is Init
                &&& e.detail() == already_initialized()
                &&& after.state() == before.state()
                &&& after.sending() == before.sending()
                &&& after.dropped() == before.dropped()
            },
        }
        &&& after.timeout() == before.timeout()
        &&& after.next() == before.next()
        &&& after.calls() == before.calls()
        &&& after.outbox() == before.outbox()
        &&& after.limit() == before.limit()
        &&& after.bound_as(before)
    }

    /// What `close` does: the client is no longer ready, and accepts no
    /// reply. The calls that wait stay, and time out.
    pub open spec fn closed(before: Self, after: Self) -> bool {
        &&& after.state() == before.state().after_close()
        &&& after.sending() == before.sending()
        &&& after.timeout() == before.timeout()
        &&& after.next() == before.next()
        &&& after.calls() == before.calls()
        &&& after.outbox() == before.outbox()
        &&& after.limit() == before.limit()
        &&& after.bound_as(before)
        &&& after.dropped() == before.dropped()
    }

    /// What `take_outbox` does: `taken` are the frames that waited, oldest
    /// first, and none waits any more.
    pub open spec fn emptied(before: Self, after: Self, taken: Seq<Vec<u8>>) -> bool {
        &&& holds(taken, before.outbox())
        &&& after.outbox() == Seq::<Seq<u8>>::empty()
        &&& after.limit() == before.limit()
        &&& after.bound_as(before)
        &&& after.timeout() == before.timeout()
        &&& after.next() == before.next()
        &&& after.calls() == before.calls()
        &&& after.state() == before.state()
        &&& after.sending() == before.sending()
        &&& after.dropped() == before.dropped()
    }

    /// What `call` does.
    ///
    /// On a client that is ready, with room in its outbox and a sequence
    /// number left, the call gets the next sequence number, which is the
    /// number of no call that waits; it waits until `now` plus the timeout;
    /// and exactly one frame joins the outbox: the request with that
    /// sequence number, the method `api_id` and the bytes of `parameter`.
    /// Otherwise the call fails and changes nothing: with `NotInitialized` on
    /// a client that is not ready, else with `Channel` where the outbox is
    /// full or no sequence number is left.
    pub open spec fn called(
        before: Self,
        after: Self,
        r: Result<u64, SdkError>,
        api_id: i32,
        parameter: Seq<char>,
        now: u64,
    ) -> bool {
        &&& match r {
            Ok(id) => {
                &&& before.ready()
                &&& before.has_room()
                &&& id == before.next()
                &&& id < u64::MAX
                &&& after.next() == id + 1
                &&& !before.calls().contains_key(id)
                &&& after.calls() == before.calls().insert(
                    id,
                    SlotModel::Waiting { deadline: deadline_of(now, before.timeout()) },
                )
                &&& after.outbox() == before.outbox().push(
                    Request::wire(
                        RequestModel { api_id, sequence_id: id, parameter: encode_utf8(parameter) },
                    ),
                )
            },
            Err(e) => {
                &&& if !before.ready() {
                    e == SdkError::NotInitialized
                } else if !before.has_room() {
                    e is Channel && e.detail() == congested()
                } else {
                    before.next() == u64::MAX && e is Channel && e.detail() == exhausted()
                }
                &&& after.next() == before.next()
                &&& after.calls() == before.calls()
                &&& after.outbox() == before.outbox()
            },
        }
        &&& after.limit() == before.limit()
        &&& after.bound_as(before)
        &&& after.timeout() == before.timeout()
        &&& after.state() == before.state()
        &&& after.sending() == before.sending()
        &&& after.dropped() == before.dropped()
    }

    /// What `receive` does with `frame` at `now`.
    ///
    /// Where the reply channel delivers a reply, the calls are those that
    /// the model gives for that reply, and the result tells whether a call
    /// waited for it. Where it delivers none, the calls stay as they are.
    pub open spec fn received(
        before: Self,
        after: Self,
        r: Received,
        frame: Seq<u8>,
        now: u64,
    ) -> bool {
        &&& match delivered::<Response>(before.state(), frame) {
            Some(response) => {
                &&& after.calls() == answered(before.calls(), response, now)
                &&& if awaits(before.calls(), response.sequence_id, now) {
                    r == Received::Answer(response.sequence_id)
                } else {
                    r == Received::Stale
                }
            },
            None => r == Received::Rejected && after.calls() == before.calls(),
        }
        &&& after.dropped() == dropped_after::<Response>(before.state(), before.dropped(), frame)
        &&& after.timeout() == before.timeout()
        &&& after.next() == before.next()
        &&& after.state() == before.state()
        &&& after.sending() == before.sending()
        &&& after.outbox() == before.outbox()
        &&& after.limit() == before.limit()
        &&& after.bound_as(before)
    }

    /// What `poll` does for the call `sequence_id` at `now`.
    ///
    /// The result reports what the model finds in the slot of the call. A
    /// call that is over leaves the client; any other result changes
    /// nothing.
    pub open spec fn polled(
        before: Self,
        after: Self,
        r: CallStatus,
        sequence_id: u64,
        now: u64,
    ) -> bool {
        &&& r.reports(
            if before.calls().contains_key(sequence_id) {
                Some(outcome(before.calls()[sequence_id], now))
            } else {
                None
            },
        )
        &&& after.calls() == if r is Finished {
            before.calls().remove(sequence_id)
        } else {
            before.calls()
        }
        &&& after.timeout() == before.timeout()
        &&& after.next() == before.next()
        &&& after.state() == before.state()
        &&& after.sending() == before.sending()
        &&& after.outbox() == before.outbox()
        &&& after.limit() == before.limit()
        &&& after.bound_as(before)
        &&& after.dropped() == before.dropped()
    }

    /// What `cancel` does for the call `sequence_id`: the call leaves the
    /// client, and `r` says whether there was one. A request that waits in
    /// the outbox stays there.
    pub open spec fn cancelled(before: Self, after: Self, r: bool, sequence_id: u64) -> bool {
        &&& r == before.calls().contains_key(sequence_id)
        &&& after.calls() == before.calls().remove(sequence_id)
        &&& after.timeout() == before.timeout()
        &&& after.next() == before.next()
        &&& after.state() == before.state()
        &&& after.sending() == before.sending()
        &&& after.outbox() == before.outbox()
        &&& after.limit() == before.limit()
        &&& after.bound_as(before)
        &&& after.dropped() == before.dropped()
    }

    /// A later call gets a larger sequence number than an earlier one,
    /// whatever the client did between the two: no two calls of a client
    /// share a sequence number, and the reply to one is never taken for the
    /// reply to the other.
    ///
    /// The first call takes the client from `idle` to `waiting`, the second
    /// from `later` to `last`. Between the two the client made calls, took
    /// frames and gave results, none of which lowers the next sequence
    /// number.
    pub proof fn lemma_numbers_are_not_reused(
        idle: Self,
        waiting: Self,
        later: Self,
        last: Self,
        first_id: u64,
        second_id: u64,
        first_call: (i32, Seq<char>, u64),
        second_call: (i32, Seq<char>, u64),
    )
        requires
            Self::called(idle, waiting, Ok(first_id), first_call.0, first_call.1, first_call.2),
            waiting.next() <= later.next(),
            Self::called(later, last, Ok(second_id), second_call.0, second_call.1, second_call.2),
        ensures
            first_id < second_id,
    {
    }

    /// A call that was made, and whose reply arrives in time, ends with that
    /// reply: the frame of the reply is accepted as the answer to this call,
    /// the caller finds the result or the refusal that it carries, and the
    /// call has left the client.
    ///
    /// The client is `idle` before the call, `waiting` after it, `answered`
    /// after the frame of `reply` was received at `seen_at`, and `done` after
    /// the caller asked at `asked_at`.
    pub proof fn lemma_reply_reaches_caller(
        idle: Self,
        waiting: Self,
        answered: Self,
        done: Self,
        id: u64,
        api_id: i32,
        parameter: Seq<char>,
        called_at: u64,
        reply: ResponseModel,
        seen_at: u64,
        seen: Received,
        asked_at: u64,
        found: CallStatus,
    )
        requires
            Self::called(idle, waiting, Ok(id), api_id, parameter, called_at),
            reply.sequence_id == id,
            seen_at <= deadline_of(called_at, idle.timeout()),
            Self::received(waiting, answered, seen, Response::wire(reply), seen_at),
            Self::polled(answered, done, found, id, asked_at),
        ensures
            seen == Received::Answer(id),
            found.reports(
                Some(outcome(SlotModel::Answered { code: reply.code, data: reply.data }, asked_at)),
            ),
            !done.calls().contains_key(id),
    {
        Response::lemma_parse_wire(reply);
    }

    /// A call that was made, and for which no reply was accepted, ends with
    /// `Timeout` once its time is up, and not before.
    ///
    /// The client is `idle` before the call, `waiting` after it, and `done`
    /// after the caller asked at `asked_at`.
    pub proof fn lemma_silence_times_out(
        idle: Self,
        waiting: Self,
        done: Self,
        id: u64,
        api_id: i32,
        parameter: Seq<char>,
        called_at: u64,
        asked_at: u64,
        found: CallStatus,
    )
        requires
            Self::called(idle, waiting, Ok(id), api_id, parameter, called_at),
            Self::polled(waiting, done, found, id, asked_at),
        ensures
            asked_at >= deadline_of(called_at, idle.timeout()) ==> found == CallStatus::Finished(
                Err(SdkError::Timeout),
            ) && !done.calls().contains_key(id),
            asked_at < deadline_of(called_at, idle.timeout()) ==> found is Pending
                && done.calls().contains_key(id),
    {
    }

    /// Whether the client is bound to the domain and the topics of `other`.
    pub open spec fn bound_as(&self, other: Self) -> bool {
        &&& self.domain() == other.domain()
        &&& self.request_topic() == other.request_topic()
        &&& self.response_topic() == other.response_topic()
    }

    /// What holds of a client that was just made for the service `service`
    /// in the domain `domain_id`, and whose first call gets the sequence
    /// number `first`: it is uninitialized, has the default timeout, the
    /// largest outbox limit there is, no call and nothing to send.
    pub open spec fn fresh(&self, domain_id: i32, service: Seq<char>, first: u64) -> bool {
        &&& self.timeout() == DEFAULT_TIMEOUT
        &&& self.next() == first
        &&& self.calls() == Map::<u64, SlotModel>::empty()
        &&& self.state() == ChannelState::Uninitialized
        &&& !self.sending()
        &&& self.outbox() == Seq::<Seq<u8>>::empty()
        &&& self.limit() == usize::MAX
        &&& self.domain() == domain_id
        &&& self.request_topic() == request_topic(service)
        &&& self.response_topic() == response_topic(service)
        &&& self.dropped() == 0
    }

    /// An uninitialized client of the service `service` in domain 0, whose
    /// first call gets the sequence number 0.
    pub fn new(service: &str) -> (r: Self)
        ensures
            r.fresh(0, service@, 0),
    {
        Self::starting_at(&ChannelFactory::instance(), service, 0)
    }

    /// An uninitialized client of the service `service` in the domain of
    /// `factory`, whose first call gets the sequence number 0.
    pub fn with_factory(factory: &ChannelFactory, service: &str) -> (r: Self)
        ensures
            r.fresh(factory.domain_id, service@, 0),
    {
        Self::starting_at(factory, service, 0)
    }

    /// An uninitialized client of the service `service` in the domain of
    /// `factory`, whose first call gets the sequence number `first`.
    pub fn starting_at(factory: &ChannelFactory, service: &str, first: u64) -> (r: Self)
        ensures
            r.fresh(factory.domain_id, service@, first),
    {
        let request_name = String::from_str("rt/api/").concat(service).concat("/request");
        let response_name = String::from_str("rt/api/").concat(service).concat("/response");
        RpcClient {
            timeout: DEFAULT_TIMEOUT,
            pending: PendingCalls::starting_at(first),
            requests: factory.create_publisher(request_name.as_str()),
            responses: factory.create_subscriber(response_name.as_str()),
        }
    }

    /// The domain of the two topics of the client.
    pub fn domain_id(&self) -> (r: i32)
        ensures
            r == self.domain(),
    {
        self.requests.domain_id()
    }

    /// Sets the time that the calls made from now on wait for their reply.
    pub fn set_timeout(&mut self, timeout: u64)
        ensures
            Self::retimed(*old(self), *final(self), timeout),
    {
        self.timeout = timeout;
    }

    /// Sets the number of request frames from which on the outbox accepts
    /// no more. The frames that wait stay in the outbox.
    pub fn set_outbox_limit(&mut self, limit: usize)
        ensures
            Self::relimited(*old(self), *final(self), limit),
    {
        self.requests.set_outbox_limit(limit);
    }

    /// The number of request frames from which on the outbox accepts no
    /// more.
    pub fn outbox_limit(&self) -> (r: usize)
        ensures
            r == self.limit(),
    {
        self.requests.outbox_limit()
    }

    /// The time that a call waits for its reply.
    pub fn get_timeout(&self) -> (r: u64)
        ensures
            r == self.timeout(),
    {
        self.timeout
    }

    /// The name of the topic on which the requests travel.
    pub fn request_topic_name(&self) -> (r: &str)
        ensures
            r@ == self.request_topic(),
    {
        self.requests.topic_name()
    }

    /// The name of the topic on which the replies travel.
    pub fn response_topic_name(&self) -> (r: &str)
        ensures
            r@ == self.response_topic(),
    {
        self.responses.topic_name()
    }

    /// Whether the client makes calls: it was initialized, and not closed
    /// since.
    pub fn is_running(&self) -> (r: bool)
        ensures
            r == self.ready(),
    {
        self.responses.is_running() && self.requests.is_initialized()
    }

    /// Number of calls that were made and not yet collected.
    pub fn outstanding(&self) -> (r: usize)
        ensures
            r == self.calls().dom().len(),
    {
        self.pending.len()
    }

    /// Number of frames of the reply topic that were dropped since the last
    /// initialization.
    pub fn dropped_frames(&self) -> (r: u64)
        ensures
            r == self.dropped(),
    {
        self.responses.dropped_frames()
    }

    /// Opens the two channels of the client.
    ///
    /// Fails with `Init`, and changes nothing, on a client that is
    /// initialized and was not closed since.
    pub fn init(&mut self) -> (r: Result<(), SdkError>)
        ensures
            Self::initialized(*old(self), *final(self), r),
    {
        match self.responses.init_channel() {
            Ok(_) => self.requests.init_channel(),
            Err(e) => Err(e),
        }
    }

    /// Closes the reply channel: from now on the client makes no call and
    /// accepts no reply, until it is initialized again. The calls that wait
    /// stay, and time out.
    pub fn close(&mut self)
        ensures
            Self::closed(*old(self), *final(self)),
    {
        self.responses.close_channel();
    }

    /// Hands over the request frames that wait to be sent, oldest first, and
    /// leaves the outbox empty.
    pub fn take_outbox(&mut self) -> (r: Vec<Vec<u8>>)
        ensures
            Self::emptied(*old(self), *final(self), r@),
    {
        self.requests.take_outbox()
    }

    /// Starts the call of method `api_id` with the arguments `parameter`, at
    /// time `now`, and gives the sequence number under which its result is
    /// asked for.
    ///
    /// The request joins the outbox, and the call waits for a reply until
    /// `now` plus the timeout. Fails with `NotInitialized` on a client that
    /// is not ready, and with `Channel` where the outbox is full or every
    /// sequence number was used; a failed call changes nothing.
    pub fn call(&mut self, api_id: i32, parameter: &str, now: u64) -> (r: Result<u64, SdkError>)
        ensures
            Self::called(*old(self), *final(self), r, api_id, parameter@, now),
    {
        if !self.is_running() {
            return Err(SdkError::NotInitialized);
        }
        if self.requests.pending() >= self.requests.outbox_limit() {
            return Err(SdkError::Channel(String::from_str("outbox full")));
        }
        let deadline: u64 = match now.checked_add(self.timeout) {
            Some(deadline) => deadline,
            None => u64::MAX,
        };
        let id: u64 = match self.pending.start(deadline) {
            Some(id) => id,
            None => {
                return Err(SdkError::Channel(String::from_str("sequence numbers exhausted")));
            },
        };
        let request = Request { api_id, sequence_id: id, parameter: parameter.as_bytes_vec() };
        match self.requests.write(&request) {
            Ok(_) => Ok(id),
            Err(e) => Err(e),
        }
    }

    /// Takes one frame that arrived on the reply topic, at time `now`.
    ///
    /// A frame that carries a reply to a call that waits, and comes in time,
    /// is kept for that call. A reply that nobody waits for is discarded,
    /// and a frame that carries no reply is dropped and counted.
    pub fn receive(&mut self, frame: &[u8], now: u64) -> (r: Received)
        ensures
            Self::received(*old(self), *final(self), r, frame@, now),
    {
        let response: Response = match self.responses.deliver(frame) {
            Some(response) => response,
            None => {
                return Received::Rejected;
            },
        };
        let id: u64 = response.sequence_id;
        if self.pending.answer(response, now) {
            Received::Answer(id)
        } else {
            Received::Stale
        }
    }

    /// Asks, at time `now`, for the result of the call with the sequence
    /// number `sequence_id`.
    ///
    /// A call that is over leaves the client with this answer: its result is
    /// given once.
    pub fn poll(&mut self, sequence_id: u64, now: u64) -> (r: CallStatus)
        ensures
            Self::polled(*old(self), *final(self), r, sequence_id, now),
    {
        self.pending.collect(sequence_id, now)
    }

    /// Gives the call with the sequence number `sequence_id` up, and says
    /// whether it waited or was answered. Its caller does not have to wait
    /// for the timeout, and a reply that comes later is discarded.
    pub fn cancel(&mut self, sequence_id: u64) -> (r: bool)
        ensures
            Self::cancelled(*old(self), *final(self), r, sequence_id),
    {
        self.pending.cancel(sequence_id)
    }

    /// The result code of a call that ended with `result`: zero for success,
    /// or the code with which the service refused, as the service gave it. A
    /// call that failed for another reason fails here for the same reason.
    pub fn result_code(result: Result<Vec<u8>, SdkError>) -> (r: Result<i32, SdkError>)
        ensures
            r == match result {
                Ok(_) => Ok::<i32, SdkError>(0),
                Err(SdkError::ApiError(code)) => Ok(code),
                Err(e) => Err(e),
            },
    {
        match result {
            Ok(_) => Ok(0),
            Err(SdkError::ApiError(code)) => Ok(code),
            Err(e) => Err(e),
        }
    }
}

} // verus!
