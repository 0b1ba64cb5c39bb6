//! What follows from the transitions of the ring and of a submission,
//! whatever the driver and the bus do.

use crate::error::StreamError;
use crate::ring::{RingView, SlotPhase};
use crate::signal::tone_run;
use crate::submission::{Submission, SubmissionState};
use crate::transfer::{TransferDescriptor, TransferResult};
use vstd::prelude::*;

verus! {

impl RingView {
    /// The ring after the first `count` slots were handed to the native layer
    /// and accepted, in slot order.
    pub open spec fn launched(self, count: nat) -> RingView
        decreases count,
    {
        if count == 0 {
            self
        } else {
            self.launched((count - 1) as nat).with_phase(
                count - 1,
                SlotPhase::Submitting,
            ).submit_reported(count - 1, 0)
        }
    }

    /// One round of the steady state: slot `idx` completes successfully, is
    /// refilled, and its next submit call is accepted.
    pub open spec fn cycled(self, idx: int) -> RingView {
        self.refilled(idx).with_phase(idx, SlotPhase::Submitting).submit_reported(idx, 0)
    }

    /// The ring after one steady-state round for each slot named in `order`.
    pub open spec fn cycled_all(self, order: Seq<int>) -> RingView
        decreases order.len(),
    {
        if order.len() == 0 {
            self
        } else {
            self.cycled_all(order.drop_last()).cycled(order.last())
        }
    }

    /// The ring after the submit call for slot `idx` was rejected with `code`
    /// `count` times in a row, each retry coming after the recovery that the
    /// ring asked for.
    pub open spec fn rejected(self, idx: int, code: i32, count: nat) -> RingView
        decreases count,
    {
        if count == 0 {
            self
        } else {
            self.rejected(idx, code, (count - 1) as nat).with_phase(
                idx,
                SlotPhase::Submitting,
            ).submit_reported(idx, code)
        }
    }
}

/// Selective resubmission: whatever the submission of slot `idx` resolved
/// with, every other slot keeps its buffer, its phase and its count of
/// recoveries.
pub proof fn lemma_settle_is_selective(
    ring: RingView,
    idx: int,
    outcome: Result<TransferResult, StreamError>,
    other: int,
)
    requires
        0 <= idx < ring.slots.len(),
        0 <= other < ring.slots.len(),
        other != idx,
    ensures
        ring.settled(idx, outcome).slots.len() == ring.slots.len(),
        ring.settled(idx, outcome).slots[other] == ring.slots[other],
{
}

/// A successful completion refills the buffer of its slot with the run that
/// starts where the clock stood and moves the clock on by one buffer, so the
/// runs of successive fills neither overlap nor leave a gap.
pub proof fn lemma_refill_is_gapless(ring: RingView, idx: int, res: TransferResult)
    requires
        ring.wf(),
        0 <= idx < ring.slots.len(),
        res.status == 0,
    ensures
        ring.settled(idx, Ok(res)).wf(),
        ring.settled(idx, Ok(res)).slots[idx].buffer == tone_run(
            ring.period,
            ring.clock as int,
            ring.buffer_len,
        ),
        ring.settled(idx, Ok(res)).clock == ring.clock + ring.buffer_len,
        ring.settled(idx, Ok(res)).fills == ring.fills + 1,
        ring.settled(idx, Ok(res)).slots[idx].phase is Queued,
        ring.settled(idx, Ok(res)).halted == ring.halted,
{
    let next = ring.refilled(idx);
    assert((ring.fills + 1) * ring.buffer_len == ring.fills * ring.buffer_len + ring.buffer_len)
        by (nonlinear_arith);
    assert forall|i: int| 0 <= i < next.slots.len() implies {
        &&& (#[trigger] next.slots[i]).buffer.len() == next.buffer_len
        &&& next.slots[i].attempts <= next.retry_bound
    } by {
        if i != idx {
            assert(next.slots[i] == ring.slots[i]);
        }
    }
}

/// Launching the slots of a freshly filled ring costs one submit call each
/// and fills nothing.
pub proof fn lemma_launch_accounting(ring: RingView, count: nat)
    requires
        count <= ring.slots.len(),
    ensures
        ring.launched(count).submit_calls == ring.submit_calls + count,
        ring.launched(count).fills == ring.fills,
        ring.launched(count).clock == ring.clock,
        ring.launched(count).halted == ring.halted,
        ring.launched(count).buffer_len == ring.buffer_len,
        ring.launched(count).slots.len() == ring.slots.len(),
    decreases count,
{
    if count > 0 {
        lemma_launch_accounting(ring, (count - 1) as nat);
    }
}

/// Steady-state accounting: each successful completion, in whatever slot
/// order they arrive, costs exactly one more submit call and one more fill,
/// and moves the clock on by exactly one buffer.
pub proof fn lemma_steady_state_accounting(ring: RingView, order: Seq<int>)
    requires
        forall|k: int| 0 <= k < order.len() ==> 0 <= #[trigger] order[k] < ring.slots.len(),
    ensures
        ring.cycled_all(order).submit_calls == ring.submit_calls + order.len(),
        ring.cycled_all(order).fills == ring.fills + order.len(),
        ring.cycled_all(order).clock == ring.clock + order.len() * ring.buffer_len,
        ring.cycled_all(order).halted == ring.halted,
        ring.cycled_all(order).buffer_len == ring.buffer_len,
        ring.cycled_all(order).period == ring.period,
        ring.cycled_all(order).slots.len() == ring.slots.len(),
        order.len() > 0 ==> ring.cycled_all(order).slots[order.last()].buffer == tone_run(
            ring.period,
            ring.clock + (order.len() - 1) * ring.buffer_len,
            ring.buffer_len,
        ),
    decreases order.len(),
{
    if order.len() > 0 {
        let before = order.drop_last();
        lemma_steady_state_accounting(ring, before);
        let n = before.len();
        let len = ring.buffer_len;
        assert((n + 1) * len == n * len + len) by (nonlinear_arith);
    }
}

/// A ring that was filled, launched and then saw `order` successful
/// completions has made one submit call per slot plus one per completion,
/// its clock stands at the end of as many buffers, and every slot is in
/// flight again.
pub proof fn lemma_ring_accounting(
    period: Seq<i16>,
    buffer_len: nat,
    retry_bound: nat,
    layouts: Seq<TransferDescriptor>,
    order: Seq<int>,
)
    requires
        forall|k: int| 0 <= k < order.len() ==> 0 <= #[trigger] order[k] < layouts.len(),
    ensures
        ({
            let depth = layouts.len();
            let ring = RingView::primed(period, buffer_len, retry_bound, layouts).launched(
                depth,
            ).cycled_all(order);
            &&& ring.submit_calls == depth + order.len()
            &&& ring.fills == depth + order.len()
            &&& ring.clock == (depth + order.len()) * buffer_len
            &&& ring.halted is None
            &&& ring.slots.len() == depth
            &&& ring.all_in_flight()
        }),
{
    let depth = layouts.len();
    let primed = RingView::primed(period, buffer_len, retry_bound, layouts);
    lemma_launch_accounting(primed, depth);
    lemma_launch_fills_the_ring(primed, depth);
    lemma_steady_state_accounting(primed.launched(depth), order);
    lemma_steady_state_keeps_the_ring_full(primed.launched(depth), order);
    let n = order.len();
    assert((depth + n) * buffer_len == depth * buffer_len + n * buffer_len) by (nonlinear_arith);
}

/// Launching puts the launched slots in flight, one after the other.
pub proof fn lemma_launch_fills_the_ring(ring: RingView, count: nat)
    requires
        count <= ring.slots.len(),
    ensures
        ring.launched(count).slots.len() == ring.slots.len(),
        forall|i: int| 0 <= i < count ==> (#[trigger] ring.launched(count).slots[i]).phase is InFlight,
        forall|i: int|
            count <= i < ring.slots.len() ==> #[trigger] ring.launched(count).slots[i]
                == ring.slots[i],
    decreases count,
{
    if count > 0 {
        lemma_launch_fills_the_ring(ring, (count - 1) as nat);
    }
}

/// The outstanding submissions stay as many as the ring is deep: after every
/// steady-state round all slots are in flight again.
pub proof fn lemma_steady_state_keeps_the_ring_full(ring: RingView, order: Seq<int>)
    requires
        ring.all_in_flight(),
        forall|k: int| 0 <= k < order.len() ==> 0 <= #[trigger] order[k] < ring.slots.len(),
    ensures
        ring.cycled_all(order).slots.len() == ring.slots.len(),
        ring.cycled_all(order).all_in_flight(),
    decreases order.len(),
{
    if order.len() > 0 {
        lemma_steady_state_keeps_the_ring_full(ring, order.drop_last());
    }
}

/// Bounded recovery: a slot with all its recoveries left whose submit call is
/// rejected again and again is granted one recovery per rejection up to the
/// bound, and the ring stays up; the rejection after the last recovery halts
/// the ring with that error, without another recovery.
pub proof fn lemma_recovery_is_bounded(ring: RingView, idx: int, code: i32, count: nat)
    requires
        0 <= idx < ring.slots.len(),
        ring.halted is None,
        ring.slots[idx].attempts == 0,
        code != 0,
        count <= ring.retry_bound + 1,
    ensures
        ring.rejected(idx, code, count).retry_bound == ring.retry_bound,
        ring.rejected(idx, code, count).slots.len() == ring.slots.len(),
        ring.rejected(idx, code, count).submit_calls == ring.submit_calls + count,
        count <= ring.retry_bound ==> {
            &&& ring.rejected(idx, code, count).halted is None
            &&& ring.rejected(idx, code, count).recoveries == ring.recoveries + count
            &&& ring.rejected(idx, code, count).slots[idx].attempts == count
            &&& count > 0 ==> ring.rejected(idx, code, count).slots[idx].phase is NeedsRecovery
        },
        count == ring.retry_bound + 1 ==> {
            &&& ring.rejected(idx, code, count).halted == Some(StreamError::SubmitFailed(code))
            &&& ring.rejected(idx, code, count).recoveries == ring.recoveries + ring.retry_bound
        },
    decreases count,
{
    if count > 0 {
        lemma_recovery_is_bounded(ring, idx, code, (count - 1) as nat);
    }
}

/// A retry that the native layer accepts puts the slot in flight and leaves
/// the ring up, however many recoveries the slot has used.
pub proof fn lemma_accepted_retry_flies(ring: RingView, idx: int)
    requires
        0 <= idx < ring.slots.len(),
    ensures
        ring.with_phase(idx, SlotPhase::Submitting).submit_reported(idx, 0).halted == ring.halted,
        ring.with_phase(idx, SlotPhase::Submitting).submit_reported(idx, 0).slots[idx].phase
            is InFlight,
        ring.with_phase(idx, SlotPhase::Submitting).submit_reported(idx, 0).slots[idx].attempts
            == ring.slots[idx].attempts,
{
}

/// Exactly-once completion: once a submission has resolved, nothing that its
/// result slot gives later changes its state.
pub proof fn lemma_resolved_is_final(
    state: SubmissionState,
    idx: usize,
    first: Option<Option<TransferResult>>,
    second: Option<Option<TransferResult>>,
)
    ensures
        state.resolved() ==> Submission::observed(state, idx, first) == state,
        Submission::observed(state, idx, first).resolved() ==> Submission::observed(
            Submission::observed(state, idx, first),
            idx,
            second,
        ) == Submission::observed(state, idx, first),
{
}

/// The sample clock only moves forward, and the ring stays consistent:
/// whatever a submission resolves with, the clock stands where it stood or
/// one buffer further on, and no slot ends up with more recoveries spent than
/// granted.
pub proof fn lemma_settled_keeps_the_ring_consistent(
    ring: RingView,
    idx: int,
    outcome: Result<TransferResult, StreamError>,
)
    requires
        ring.wf(),
        0 <= idx < ring.slots.len(),
    ensures
        ring.settled(idx, outcome).wf(),
        ring.settled(idx, outcome).clock == ring.clock || ring.settled(idx, outcome).clock
            == ring.clock + ring.buffer_len,
        ring.settled(idx, outcome).submit_calls == ring.submit_calls,
{
    let next = ring.settled(idx, outcome);
    assert((ring.fills + 1) * ring.buffer_len == ring.fills * ring.buffer_len + ring.buffer_len)
        by (nonlinear_arith);
    assert forall|i: int| 0 <= i < next.slots.len() implies {
        &&& (#[trigger] next.slots[i]).buffer.len() == next.buffer_len
        &&& next.slots[i].attempts <= next.retry_bound
    } by {
        if i != idx {
            assert(next.slots[i] == ring.slots[i]);
        } else {
            assert(ring.slots[idx].buffer.len() == ring.buffer_len);
        }
    }
}

/// A report of the native submit call counts as one submit call, leaves the
/// clock and every buffer alone, and keeps the ring consistent.
pub proof fn lemma_submit_report_keeps_the_ring_consistent(ring: RingView, idx: int, code: i32)
    requires
        ring.wf(),
        0 <= idx < ring.slots.len(),
    ensures
        ring.submit_reported(idx, code).wf(),
        ring.submit_reported(idx, code).clock == ring.clock,
        ring.submit_reported(idx, code).submit_calls == ring.submit_calls + 1,
        ring.submit_reported(idx, code).slots.len() == ring.slots.len(),
        forall|i: int|
            0 <= i < ring.slots.len() ==> (#[trigger] ring.submit_reported(
                idx,
                code,
            ).slots[i]).buffer == ring.slots[i].buffer,
{
    let next = ring.submit_reported(idx, code);
    assert forall|i: int| 0 <= i < next.slots.len() implies {
        &&& (#[trigger] next.slots[i]).buffer.len() == next.buffer_len
        &&& next.slots[i].attempts <= next.retry_bound
        &&& next.slots[i].buffer == ring.slots[i].buffer
    } by {
        if i != idx {
            assert(next.slots[i] == ring.slots[i]);
        } else {
            assert(ring.slots[idx].buffer.len() == ring.buffer_len);
        }
    }
}

} // verus!
