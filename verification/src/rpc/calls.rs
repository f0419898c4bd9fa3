//! The calls that wait for their replies, as a mathematical model.
//!
//! The state of the matching is a map from the sequence number of each call
//! that was made and not yet collected to its slot. What happens to that map
//! when a reply arrives, and what a caller finds in its slot, is stated here
//! as functions of the map alone, together with the laws that make the
//! matching independent of the order in which replies arrive.

use vstd::prelude::*;
use crate::rpc::frame::ResponseModel;

verus! {

/// What is known of one call.
#[verifier::ext_equal]
pub enum SlotModel {
    /// No reply was accepted yet; one that is seen later than `deadline`
    /// comes too late.
    Waiting { deadline: u64 },
    /// The reply was accepted and waits to be collected.
    Answered { code: i32, data: Seq<u8> },
}

/// What a caller finds when it asks for the result of its call.
#[verifier::ext_equal]
pub enum Outcome {
    /// No reply yet, and time is left.
    Pending,
    /// No reply came in time.
    TimedOut,
    /// The service refused the call with this code.
    Refused(i32),
    /// The call succeeded with this result.
    Done(Seq<u8>),
}

/// A reply together with the time at which it was seen.
pub struct Arrival {
    /// The reply.
    pub response: ResponseModel,
    /// The time at which it was seen.
    pub at: u64,
}

/// The latest time at which the reply to a call made at `now` is accepted.
pub open spec fn deadline_of(now: u64, timeout: u64) -> u64 {
    if now + timeout <= u64::MAX {
        (now + timeout) as u64
    } else {
        u64::MAX
    }
}

/// Whether the call `id` waits for a reply that may still come at `now`.
pub open spec fn awaits(calls: Map<u64, SlotModel>, id: u64, now: u64) -> bool {
    calls.contains_key(id) && (calls[id] matches SlotModel::Waiting { deadline } && now <= deadline)
}

/// The calls after `response` was seen at `now`: the call that it answers
/// holds it, if that call still waits and the reply is in time; any other
/// reply changes nothing.
pub open spec fn answered(calls: Map<u64, SlotModel>, response: ResponseModel, now: u64) -> Map<
    u64,
    SlotModel,
> {
    if awaits(calls, response.sequence_id, now) {
        calls.insert(
            response.sequence_id,
            SlotModel::Answered { code: response.code, data: response.data },
        )
    } else {
        calls
    }
}

/// The calls after the replies of `arrivals` were seen, in that order.
pub open spec fn answered_all(calls: Map<u64, SlotModel>, arrivals: Seq<Arrival>) -> Map<
    u64,
    SlotModel,
>
    decreases arrivals.len(),
{
    if arrivals.len() == 0 {
        calls
    } else {
        answered(
            answered_all(calls, arrivals.drop_last()),
            arrivals.last().response,
            arrivals.last().at,
        )
    }
}

/// What the caller of a call with slot `slot` finds at `now`.
pub open spec fn outcome(slot: SlotModel, now: u64) -> Outcome {
    match slot {
        SlotModel::Waiting { deadline } => if now >= deadline {
            Outcome::TimedOut
        } else {
            Outcome::Pending
        },
        SlotModel::Answered { code, data } => if code == 0 {
            Outcome::Done(data)
        } else {
            Outcome::Refused(code)
        },
    }
}

/// Whether `arrival` is a reply to the call `id` that comes in time for
/// `deadline`.
pub open spec fn answers(arrival: Arrival, id: u64, deadline: u64) -> bool {
    arrival.response.sequence_id == id && arrival.at <= deadline
}

/// A reply changes the slot of no call but the one that it answers, and
/// neither adds a call nor removes one.
pub proof fn lemma_answered_others(
    calls: Map<u64, SlotModel>,
    response: ResponseModel,
    now: u64,
    id: u64,
)
    ensures
        answered(calls, response, now).dom() == calls.dom(),
        id != response.sequence_id && calls.contains_key(id) ==> answered(calls, response, now)[id]
            == calls[id],
{
    assert(answered(calls, response, now).dom() =~= calls.dom());
}

/// Replies neither add a call nor remove one.
pub proof fn lemma_answered_all_dom(calls: Map<u64, SlotModel>, arrivals: Seq<Arrival>)
    ensures
        answered_all(calls, arrivals).dom() == calls.dom(),
    decreases arrivals.len(),
{
    if arrivals.len() > 0 {
        lemma_answered_all_dom(calls, arrivals.drop_last());
        lemma_answered_others(
            answered_all(calls, arrivals.drop_last()),
            arrivals.last().response,
            arrivals.last().at,
            0,
        );
    }
}

/// A call whose reply is not among the replies seen, or only too late,
/// still waits after them, however many replies to other calls were seen:
/// its caller finds that it timed out once the deadline is reached.
pub proof fn lemma_unanswered_times_out(
    calls: Map<u64, SlotModel>,
    arrivals: Seq<Arrival>,
    id: u64,
    deadline: u64,
    now: u64,
)
    requires
        calls.contains_key(id),
        calls[id] == (SlotModel::Waiting { deadline }),
        forall|k: int| 0 <= k < arrivals.len() ==> !answers(#[trigger] arrivals[k], id, deadline),
        now >= deadline,
    ensures
        answered_all(calls, arrivals).contains_key(id),
        answered_all(calls, arrivals)[id] == (SlotModel::Waiting { deadline }),
        outcome(answered_all(calls, arrivals)[id], now) == Outcome::TimedOut,
    decreases arrivals.len(),
{
    if arrivals.len() > 0 {
        let front = arrivals.drop_last();
        assert forall|k: int| 0 <= k < front.len() implies !answers(
            #[trigger] front[k],
            id,
            deadline,
        ) by {
            assert(front[k] == arrivals[k]);
        }
        lemma_unanswered_times_out(calls, front, id, deadline, now);
        assert(!answers(arrivals[arrivals.len() - 1], id, deadline));
    }
}

/// A call that waits receives the first reply that carries its sequence
/// number and comes in time, whatever replies to other calls, late replies
/// and repeated replies stand before, between and behind: replies are
/// matched by sequence number, never by the order of arrival.
pub proof fn lemma_first_reply_wins(
    calls: Map<u64, SlotModel>,
    arrivals: Seq<Arrival>,
    id: u64,
    deadline: u64,
    first: int,
)
    requires
        calls.contains_key(id),
        calls[id] == (SlotModel::Waiting { deadline }),
        0 <= first < arrivals.len(),
        answers(arrivals[first], id, deadline),
        forall|k: int| 0 <= k < first ==> !answers(#[trigger] arrivals[k], id, deadline),
    ensures
        answered_all(calls, arrivals).contains_key(id),
        answered_all(calls, arrivals)[id] == (SlotModel::Answered {
            code: arrivals[first].response.code,
            data: arrivals[first].response.data,
        }),
    decreases arrivals.len(),
{
    let front = arrivals.drop_last();
    let last = arrivals.last();
    if first == arrivals.len() - 1 {
        assert forall|k: int| 0 <= k < front.len() implies !answers(
            #[trigger] front[k],
            id,
            deadline,
        ) by {
            assert(front[k] == arrivals[k]);
        }
        lemma_unanswered_times_out(calls, front, id, deadline, deadline);
    } else {
        assert(front[first] == arrivals[first]);
        assert forall|k: int| 0 <= k < first implies !answers(#[trigger] front[k], id, deadline) by {
            assert(front[k] == arrivals[k]);
        }
        lemma_first_reply_wins(calls, front, id, deadline, first);
    }
}

/// After a call was cancelled or collected, a reply to it changes nothing:
/// it is a reply that nobody waits for.
pub proof fn lemma_removed_is_stale(
    calls: Map<u64, SlotModel>,
    response: ResponseModel,
    now: u64,
)
    ensures
        answered(calls.remove(response.sequence_id), response, now) == calls.remove(
            response.sequence_id,
        ),
{
}

/// Two calls that wait each receive their own reply, in whichever order the
/// two replies arrive.
pub proof fn lemma_replies_commute(
    calls: Map<u64, SlotModel>,
    one: ResponseModel,
    other: ResponseModel,
    now: u64,
)
    requires
        one.sequence_id != other.sequence_id,
    ensures
        answered(answered(calls, one, now), other, now) == answered(
            answered(calls, other, now),
            one,
            now,
        ),
{
    assert(answered(answered(calls, one, now), other, now) =~= answered(
        answered(calls, other, now),
        one,
        now,
    ));
}

} // verus!
