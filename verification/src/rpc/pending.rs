//! The calls that wait for their replies.

use std::collections::HashMap;
use vstd::prelude::*;
use crate::error::SdkError;
use crate::rpc::calls::{answered, awaits, outcome, Outcome, SlotModel};
use crate::rpc::frame::Response;

verus! {

broadcast use vstd::std_specs::hash::group_hash_axioms;

/// What is known of one call.
enum CallSlot {
    Waiting { deadline: u64 },
    Answered { code: i32, data: Vec<u8> },
}

impl CallSlot {
    spec fn model(&self) -> SlotModel {
        match self {
            CallSlot::Waiting { deadline } => SlotModel::Waiting { deadline: *deadline },
            CallSlot::Answered { code, data } => SlotModel::Answered { code: *code, data: data@ },
        }
    }
}

/// What a caller finds when it asks for the result of its call.
#[derive(Debug, PartialEq, Eq)]
pub enum CallStatus {
    /// No reply yet, and time is left: ask again later.
    Pending,
    /// The call is over: with the result that the service gave, with
    /// `ApiError` and the code with which the service refused, or with
    /// `Timeout`.
    Finished(Result<Vec<u8>, SdkError>),
    /// No call with this sequence number waits: none was made, or it was
    /// cancelled, or its result was collected before.
    Unknown,
}

impl CallStatus {
    /// Whether the status reports `found`, where `found` is what the model
    /// finds in the slot of a call, or `None` for a call without a slot.
    pub open spec fn reports(&self, found: Option<Outcome>) -> bool {
        match found {
            None => *self is Unknown,
            Some(Outcome::Pending) => *self is Pending,
            Some(Outcome::TimedOut) => *self == CallStatus::Finished(Err(SdkError::Timeout)),
            Some(Outcome::Refused(code)) => *self == CallStatus::Finished(
                Err(SdkError::ApiError(code)),
            ),
            Some(Outcome::Done(data)) => *self matches CallStatus::Finished(Ok(bytes)) && bytes@
                == data,
        }
    }
}

/// The table of the calls that were made and not yet collected, by sequence
/// number.
///
/// The table gives out the sequence numbers, one after another, so that
/// the number of a new call is the number of no call in the table.
pub struct PendingCalls {
    next: u64,
    slots: HashMap<u64, CallSlot>,
}

impl PendingCalls {
    #[verifier::type_invariant]
    spec fn below_next(self) -> bool {
        forall|id: u64| self.slots@.contains_key(id) ==> id < self.next
    }

    /// The sequence number of the next call.
    pub closed spec fn next(&self) -> u64 {
        self.next
    }

    /// The calls of the table and what is known of each.
    pub closed spec fn calls(&self) -> Map<u64, SlotModel> {
        Map::new(|id: u64| self.slots@.contains_key(id), |id: u64| self.slots@[id].model())
    }

    /// A table without calls, whose first call gets the sequence number
    /// `first`.
    pub fn starting_at(first: u64) -> (r: Self)
        ensures
            r.next() == first,
            r.calls() == Map::<u64, SlotModel>::empty(),
    {
        let r = PendingCalls { next: first, slots: HashMap::new() };
        assert(r.calls() =~= Map::<u64, SlotModel>::empty());
        r
    }

    /// The sequence number of the next call.
    pub fn next_sequence_id(&self) -> (r: u64)
        ensures
            r == self.next(),
    {
        self.next
    }

    /// Number of calls in the table.
    pub fn len(&self) -> (r: usize)
        ensures
            r == self.calls().dom().len(),
    {
        assert(self.calls().dom() =~= self.slots@.dom());
        self.slots.len()
    }

    /// Enters a call that waits for its reply until `deadline`, and gives
    /// its sequence number; or gives `None`, and changes nothing, where the
    /// largest sequence number was reached.
    pub fn start(&mut self, deadline: u64) -> (r: Option<u64>)
        ensures
            match r {
                Some(id) => {
                    &&& id == old(self).next()
                    &&& id < u64::MAX
                    &&& final(self).next() == id + 1
                    &&& !old(self).calls().contains_key(id)
                    &&& final(self).calls() == old(self).calls().insert(
                        id,
                        SlotModel::Waiting { deadline },
                    )
                },
                None => {
                    &&& old(self).next() == u64::MAX
                    &&& final(self).next() == old(self).next()
                    &&& final(self).calls() == old(self).calls()
                },
            },
    {
        proof {
            use_type_invariant(&*self);
        }
        if self.next == u64::MAX {
            return None;
        }
        let id: u64 = self.next;
        let mut slots: HashMap<u64, CallSlot> = HashMap::new();
        std::mem::swap(&mut self.slots, &mut slots);
        slots.insert(id, CallSlot::Waiting { deadline });
        self.next = id + 1;
        std::mem::swap(&mut self.slots, &mut slots);
        assert(self.calls() =~= old(self).calls().insert(id, SlotModel::Waiting { deadline }));
        Some(id)
    }

    /// Takes a reply that was seen at `now`, and says whether a call waited
    /// for it. A reply that no call waits for changes nothing.
    pub fn answer(&mut self, response: Response, now: u64) -> (r: bool)
        ensures
            r == awaits(old(self).calls(), response.sequence_id, now),
            final(self).calls() == answered(old(self).calls(), response@, now),
            final(self).next() == old(self).next(),
    {
        proof {
            use_type_invariant(&*self);
        }
        let id: u64 = response.sequence_id;
        let waits: bool = match self.slots.get(&id) {
            Some(CallSlot::Waiting { deadline }) => now <= *deadline,
            _ => false,
        };
        if waits {
            let mut slots: HashMap<u64, CallSlot> = HashMap::new();
            std::mem::swap(&mut self.slots, &mut slots);
            slots.insert(id, CallSlot::Answered { code: response.code, data: response.data });
            std::mem::swap(&mut self.slots, &mut slots);
            assert(self.calls() =~= answered(old(self).calls(), response@, now));
        }
        waits
    }

    /// Asks, at `now`, for the result of the call `sequence_id`. A call that
    /// is over leaves the table with this answer.
    pub fn collect(&mut self, sequence_id: u64, now: u64) -> (r: CallStatus)
        ensures
            r.reports(
                if old(self).calls().contains_key(sequence_id) {
                    Some(outcome(old(self).calls()[sequence_id], now))
                } else {
                    None
                },
            ),
            final(self).calls() == if r is Finished {
                old(self).calls().remove(sequence_id)
            } else {
                old(self).calls()
            },
            final(self).next() == old(self).next(),
    {
        proof {
            use_type_invariant(&*self);
        }
        let over: bool = match self.slots.get(&sequence_id) {
            None => {
                return CallStatus::Unknown;
            },
            Some(CallSlot::Waiting { deadline }) => now >= *deadline,
            Some(CallSlot::Answered { .. }) => true,
        };
        if !over {
            return CallStatus::Pending;
        }
        let mut slots: HashMap<u64, CallSlot> = HashMap::new();
        std::mem::swap(&mut self.slots, &mut slots);
        let slot: Option<CallSlot> = slots.remove(&sequence_id);
        std::mem::swap(&mut self.slots, &mut slots);
        assert(self.calls() =~= old(self).calls().remove(sequence_id));
        match slot {
            Some(CallSlot::Answered { code, data }) => {
                if code == 0 {
                    CallStatus::Finished(Ok(data))
                } else {
                    CallStatus::Finished(Err(SdkError::ApiError(code)))
                }
            },
            _ => CallStatus::Finished(Err(SdkError::Timeout)),
        }
    }

    /// Gives the call `sequence_id` up, and says whether it was in the
    /// table. A reply that comes later is a reply that nobody waits for.
    pub fn cancel(&mut self, sequence_id: u64) -> (r: bool)
        ensures
            r == old(self).calls().contains_key(sequence_id),
            final(self).calls() == old(self).calls().remove(sequence_id),
            final(self).next() == old(self).next(),
    {
        proof {
            use_type_invariant(&*self);
        }
        let mut slots: HashMap<u64, CallSlot> = HashMap::new();
        std::mem::swap(&mut self.slots, &mut slots);
        let slot: Option<CallSlot> = slots.remove(&sequence_id);
        std::mem::swap(&mut self.slots, &mut slots);
        assert(self.calls() =~= old(self).calls().remove(sequence_id));
        slot.is_some()
    }
}

} // verus!
