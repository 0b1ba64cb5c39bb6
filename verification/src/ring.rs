use crate::config::Config;
use crate::error::StreamError;
use crate::signal::{tone_run, Waveform};
use crate::submission::{PollOutcome, PollStep, Submission, SubmissionState};
use futures::channel::oneshot::Canceled;
use crate::transfer::{Transfer, TransferContext, TransferDescriptor, TransferResult};
use vstd::prelude::*;

verus! {

/// What the ring is waiting for in one slot.
#[derive(Debug, Clone, Copy, PartialEq, Eq, Structural)]
pub enum SlotPhase {
    /// The buffer is filled; the next step is its native submit call.
    Queued,
    /// The last attempt failed; the bus recovery comes before the retry.
    NeedsRecovery,
    /// The completion context is out; the code of the submit call is awaited.
    Submitting,
    /// The native layer holds the transfer; its completion is awaited.
    InFlight,
    /// The failure of this slot halted the ring.
    Dead,
}

/// What the ring does with a slot whose submission has resolved.
#[derive(Debug, Clone, Copy, PartialEq, Eq, Structural)]
pub enum Verdict {
    /// Refill the buffer and queue it again.
    Refill,
    /// Spend a recovery: reset the bus, then retry with the same samples.
    Recover,
    /// Halt the ring with this error.
    Halt(StreamError),
}

/// The verdict on a failure `e` of a slot that has spent `attempts` of its
/// `retry_bound` recoveries: a recoverable error of a slot that has
/// recoveries left is answered with a recovery; anything else halts the ring.
pub open spec fn failure_verdict(e: StreamError, attempts: nat, retry_bound: nat) -> Verdict {
    if e.recoverable() && attempts < retry_bound {
        Verdict::Recover
    } else {
        Verdict::Halt(e)
    }
}

/// The verdict on a submission that resolved with `outcome`: a completion
/// with status zero is a success; a completion with another status and a
/// failed submission are failures of the slot.
pub open spec fn verdict(
    outcome: Result<TransferResult, StreamError>,
    attempts: nat,
    retry_bound: nat,
) -> Verdict {
    match outcome {
        Ok(res) => if res.status == 0 {
            Verdict::Refill
        } else {
            failure_verdict(StreamError::TransferStatusError(res.status), attempts, retry_bound)
        },
        Err(e) => failure_verdict(e, attempts, retry_bound),
    }
}

/// Decides what follows a failure of a slot.
pub fn judge_failure(e: StreamError, attempts: usize, retry_bound: usize) -> (v: Verdict)
    ensures
        v == failure_verdict(e, attempts as nat, retry_bound as nat),
{
    if e.is_recoverable() && attempts < retry_bound {
        Verdict::Recover
    } else {
        Verdict::Halt(e)
    }
}

/// Decides what follows the resolution of a submission.
pub fn judge(outcome: Result<TransferResult, StreamError>, attempts: usize, retry_bound: usize)
    -> (v: Verdict)
    ensures
        v == verdict(outcome, attempts as nat, retry_bound as nat),
{
    match outcome {
        Ok(res) => {
            if res.status == 0 {
                Verdict::Refill
            } else {
                judge_failure(StreamError::TransferStatusError(res.status), attempts, retry_bound)
            }
        },
        Err(e) => judge_failure(e, attempts, retry_bound),
    }
}

/// One slot of the ring as the contracts see it.
pub struct SlotView {
    /// The samples in the buffer.
    pub buffer: Seq<i16>,
    /// The layout of the native descriptor of the buffer.
    pub layout: TransferDescriptor,
    /// What the ring is waiting for.
    pub phase: SlotPhase,
    /// Recoveries spent on this slot since its last successful completion.
    pub attempts: nat,
}

impl SlotView {
    /// The driver has something to do for this slot.
    pub open spec fn waiting(self) -> bool {
        self.phase is Queued || self.phase is NeedsRecovery
    }
}

/// The ring as the contracts see it.
pub struct RingView {
    /// One period of the signal.
    pub period: Seq<i16>,
    /// Samples per buffer.
    pub buffer_len: nat,
    /// Recoveries granted to a slot between two successful completions.
    pub retry_bound: nat,
    /// The sample clock: absolute index of the next sample to generate.
    pub clock: nat,
    /// Buffer fills so far.
    pub fills: nat,
    /// Native submit calls reported so far.
    pub submit_calls: nat,
    /// Recoveries granted so far.
    pub recoveries: nat,
    /// The error that halted the ring, if one did.
    pub halted: Option<StreamError>,
    /// The slots, by index.
    pub slots: Seq<SlotView>,
}

impl RingView {
    /// Every buffer has the ring's length, no slot has used more recoveries
    /// than granted, and the clock has advanced by one buffer per fill.
    pub open spec fn wf(self) -> bool {
        &&& self.clock == self.fills * self.buffer_len
        &&& forall|i: int|
            0 <= i < self.slots.len() ==> {
                &&& (#[trigger] self.slots[i]).buffer.len() == self.buffer_len
                &&& self.slots[i].attempts <= self.retry_bound
            }
    }

    /// The ring right after its buffers, one for each of `layouts`, got their
    /// first fill: slot `i` holds the `i`-th run of the signal and is queued
    /// for submission.
    pub open spec fn primed(
        period: Seq<i16>,
        buffer_len: nat,
        retry_bound: nat,
        layouts: Seq<TransferDescriptor>,
    ) -> RingView {
        RingView {
            period,
            buffer_len,
            retry_bound,
            clock: layouts.len() * buffer_len,
            fills: layouts.len(),
            submit_calls: 0,
            recoveries: 0,
            halted: None,
            slots: Seq::new(
                layouts.len(),
                |i: int|
                    SlotView {
                        buffer: tone_run(period, i * buffer_len, buffer_len),
                        layout: layouts[i],
                        phase: SlotPhase::Queued,
                        attempts: 0,
                    },
            ),
        }
    }

    /// Every slot is in flight.
    pub open spec fn all_in_flight(self) -> bool {
        forall|i: int| 0 <= i < self.slots.len() ==> (#[trigger] self.slots[i]).phase is InFlight
    }

    /// Slot `idx` is the lowest slot that the driver has something to do for.
    pub open spec fn first_waiting(self, idx: int) -> bool {
        &&& 0 <= idx < self.slots.len()
        &&& self.slots[idx].waiting()
        &&& forall|j: int| 0 <= j < idx ==> !(#[trigger] self.slots[j]).waiting()
    }

    /// The driver has nothing to do but wait.
    pub open spec fn none_waiting(self) -> bool {
        forall|j: int| 0 <= j < self.slots.len() ==> !(#[trigger] self.slots[j]).waiting()
    }

    /// The ring with slot `idx` moved to `phase`.
    pub open spec fn with_phase(self, idx: int, phase: SlotPhase) -> RingView {
        RingView {
            slots: self.slots.update(idx, SlotView { phase, ..self.slots[idx] }),
            ..self
        }
    }

    /// The ring after slot `idx` completed successfully: its buffer holds the
    /// next run of the signal, the clock has passed that run, the slot has
    /// its recoveries back and is queued again.
    pub open spec fn refilled(self, idx: int) -> RingView {
        RingView {
            clock: self.clock + self.buffer_len,
            fills: self.fills + 1,
            slots: self.slots.update(
                idx,
                SlotView {
                    buffer: tone_run(self.period, self.clock as int, self.buffer_len),
                    phase: SlotPhase::Queued,
                    attempts: 0,
                    ..self.slots[idx]
                },
            ),
            ..self
        }
    }

    /// The ring after slot `idx` was granted a recovery: the slot has one
    /// recovery less to spend and asks for the bus recovery.
    pub open spec fn recovering(self, idx: int) -> RingView {
        RingView {
            recoveries: self.recoveries + 1,
            slots: self.slots.update(
                idx,
                SlotView {
                    phase: SlotPhase::NeedsRecovery,
                    attempts: self.slots[idx].attempts + 1,
                    ..self.slots[idx]
                },
            ),
            ..self
        }
    }

    /// The ring after the failure `e` of slot `idx` halted it. The first
    /// error that halted the ring is the one it keeps.
    pub open spec fn halting(self, idx: int, e: StreamError) -> RingView {
        RingView {
            halted: if self.halted is Some {
                self.halted
            } else {
                Some(e)
            },
            slots: self.slots.update(idx, SlotView { phase: SlotPhase::Dead, ..self.slots[idx] }),
            ..self
        }
    }

    /// The ring after `verdict` was carried out on slot `idx`.
    pub open spec fn judged(self, idx: int, verdict: Verdict) -> RingView {
        match verdict {
            Verdict::Refill => self.refilled(idx),
            Verdict::Recover => self.recovering(idx),
            Verdict::Halt(e) => self.halting(idx, e),
        }
    }

    /// The ring after slot `idx` failed with `e`.
    pub open spec fn failed(self, idx: int, e: StreamError) -> RingView {
        self.judged(idx, failure_verdict(e, self.slots[idx].attempts, self.retry_bound))
    }

    /// The ring after the submission of slot `idx` resolved with `outcome`.
    pub open spec fn settled(self, idx: int, outcome: Result<TransferResult, StreamError>)
        -> RingView {
        self.judged(idx, verdict(outcome, self.slots[idx].attempts, self.retry_bound))
    }

    /// What the submission of slot `idx` resolves with when its result slot
    /// gives `seen`: nothing unless the slot is in flight and the slot gave a
    /// result or broke; a result for this slot completes it; a broken slot
    /// and a result for another slot are protocol violations.
    pub open spec fn resolution(self, idx: usize, seen: Option<Option<TransferResult>>) -> Option<
        Result<TransferResult, StreamError>,
    > {
        if idx < self.slots.len() && self.slots[idx as int].phase is InFlight {
            match Submission::observed(SubmissionState::Submitted, idx, seen) {
                SubmissionState::Completed(res) => Some(Ok(res)),
                SubmissionState::Failed(e) => Some(Err(e)),
                _ => None,
            }
        } else {
            None
        }
    }

    /// The ring after the result slot of slot `idx` gave `seen`: settled with
    /// what the submission resolved with, or as it was.
    pub open spec fn observed(self, idx: usize, seen: Option<Option<TransferResult>>) -> RingView {
        match self.resolution(idx, seen) {
            Some(outcome) => self.settled(idx as int, outcome),
            None => self,
        }
    }

    /// The ring after the native submit call for slot `idx` returned `code`.
    pub open spec fn submit_reported(self, idx: int, code: i32) -> RingView {
        let counted = RingView { submit_calls: self.submit_calls + 1, ..self };
        if code == 0 {
            counted.with_phase(idx, SlotPhase::InFlight)
        } else {
            counted.failed(idx, StreamError::SubmitFailed(code))
        }
    }
}

/// What the driver of the ring has to do next.
pub enum RingAction {
    /// Install the context in the native descriptor of this slot, issue the
    /// native submit call and report its code with `submit_result`.
    Submit(usize, TransferContext),
    /// Toggle the alternate setting of the interface off and on for this slot.
    Recover(usize),
    /// Suspend until a completion wakes the task, then call `poll_first`.
    Wait,
    /// Stop: the ring has halted with this error.
    Halt(StreamError),
}

struct Slot {
    sub: Option<Submission>,
    attempts: usize,
    phase: SlotPhase,
}

impl Slot {
    /// The submission of the slot, which holds the buffer of the slot.
    spec fn held(&self) -> Submission {
        self.sub->0
    }

    spec fn view(&self) -> SlotView {
        SlotView {
            buffer: self.held().xfer()@,
            layout: self.held().xfer().layout(),
            phase: self.phase,
            attempts: self.attempts as nat,
        }
    }

    spec fn wf(&self, idx: int) -> bool {
        &&& self.sub is Some
        &&& self.held().slot() == idx
        &&& match self.phase {
            SlotPhase::Queued => self.held().fresh(),
            SlotPhase::NeedsRecovery => self.held().fresh(),
            SlotPhase::Submitting => self.held().state() is Idle && !self.held().holds_context(),
            SlotPhase::InFlight => self.held().state() is Submitted,
            SlotPhase::Dead => true,
        }
    }
}

/// The ring of buffers that keeps a fixed number of transfers in flight.
pub struct SubmissionRing {
    wave: Waveform,
    buffer_len: usize,
    retry_bound: usize,
    slots: Vec<Slot>,
    samp_idx: usize,
    fills: Ghost<nat>,
    submit_calls: Ghost<nat>,
    recoveries: Ghost<nat>,
    halted: Option<StreamError>,
}

impl SubmissionRing {
    /// The ring as the contracts see it.
    pub closed spec fn view(&self) -> RingView {
        RingView {
            period: self.wave@,
            buffer_len: self.buffer_len as nat,
            retry_bound: self.retry_bound as nat,
            clock: self.samp_idx as nat,
            fills: self.fills@,
            submit_calls: self.submit_calls@,
            recoveries: self.recoveries@,
            halted: self.halted,
            slots: Seq::new(self.slots@.len(), |i: int| self.slots@[i]@),
        }
    }

    /// The ring is consistent: its view is, and every slot holds the one
    /// submission that holds its buffer, in the state that the slot's phase names.
    pub closed spec fn wf(&self) -> bool {
        &&& self@.wf()
        &&& forall|i: int| 0 <= i < self.slots@.len() ==> (#[trigger] self.slots@[i]).wf(i)
    }

    /// The buffers fit a ring of `cfg`: one per slot, in slot order, of the
    /// configured length.
    pub open spec fn ready(cfg: Config, xfers: Seq<Transfer>) -> bool {
        &&& xfers.len() == cfg.buff_cnt
        &&& forall|i: int|
            0 <= i < xfers.len() ==> {
                &&& (#[trigger] xfers[i]).slot() == i
                &&& xfers[i]@.len() == cfg.buffer_len()
            }
    }

    /// The descriptor layouts of the buffers, in order.
    pub open spec fn layouts(xfers: Seq<Transfer>) -> Seq<TransferDescriptor> {
        Seq::new(xfers.len(), |i: int| xfers[i].layout())
    }

    /// The clock can pass one more buffer without leaving the machine's range.
    pub open spec fn clock_room(&self) -> bool {
        self@.clock + self@.buffer_len <= usize::MAX
    }

    /// Builds the ring over the buffers of `cfg` and gives every buffer its
    /// first fill, in slot order, from sample zero on.
    ///
    /// Buffers that do not fit the configuration are refused as a protocol
    /// violation.
    pub fn new(cfg: &Config, wave: Waveform, retry_bound: usize, xfers: Vec<Transfer>) -> (r:
        Result<SubmissionRing, StreamError>)
        requires
            cfg.valid(),
            cfg.buff_cnt * cfg.buffer_len() <= usize::MAX,
        ensures
            r is Ok <==> Self::ready(*cfg, xfers@),
            r is Err ==> r->Err_0 == StreamError::ProtocolViolation,
            r is Ok ==> {
                &&& r->Ok_0.wf()
                &&& r->Ok_0@ == RingView::primed(
                    wave@,
                    cfg.buffer_len() as nat,
                    retry_bound as nat,
                    Self::layouts(xfers@),
                )
            },
    {
        let n: usize = cfg.samples_per_transfer();
        let depth: usize = cfg.buff_cnt;
        if xfers.len() != depth {
            return Err(StreamError::ProtocolViolation);
        }
        let ghost given = xfers@;
        let mut rest = xfers;
        let mut slots: Vec<Slot> = Vec::new();
        let mut samp_idx: usize = 0;
        let mut i: usize = 0;
        while i < depth
            invariant
                i <= depth,
                depth == cfg.buff_cnt,
                n == cfg.buffer_len(),
                depth * n <= usize::MAX,
                given.len() == depth,
                given == xfers@,
                rest@ == given.subrange(i as int, depth as int),
                samp_idx == i * n,
                slots@.len() == i,
                forall|j: int|
                    0 <= j < i ==> {
                        &&& (#[trigger] given[j]).slot() == j
                        &&& given[j]@.len() == n
                    },
                forall|j: int|
                    0 <= j < i ==> {
                        &&& (#[trigger] slots@[j]).wf(j)
                        &&& slots@[j]@ == SlotView {
                            buffer: tone_run(wave@, j * n, n as nat),
                            layout: given[j].layout(),
                            phase: SlotPhase::Queued,
                            attempts: 0,
                        }
                    },
            decreases depth - i,
        {
            let xfer = rest.remove(0);
            assert(xfer == given[i as int]);
            if xfer.idx() != i || xfer.buffer().len() != n {
                return Err(StreamError::ProtocolViolation);
            }
            assert(i * n + n <= depth * n) by (nonlinear_arith)
                requires
                    i < depth,
            ;
            assert((i + 1) * n == i * n + n) by (nonlinear_arith);
            let sub = xfer.submit(&mut samp_idx, &wave);
            slots.push(Slot { sub: Some(sub), attempts: 0, phase: SlotPhase::Queued });
            i += 1;
        }
        let ring = SubmissionRing {
            wave,
            buffer_len: n,
            retry_bound,
            slots,
            samp_idx,
            fills: Ghost(depth as nat),
            submit_calls: Ghost(0),
            recoveries: Ghost(0),
            halted: None,
        };
        assert(ring@.slots =~= RingView::primed(
            wave@,
            n as nat,
            retry_bound as nat,
            Self::layouts(given),
        ).slots);
        Ok(ring)
    }

    /// Number of slots.
    pub fn depth(&self) -> (r: usize)
        ensures
            r == self@.slots.len(),
    {
        self.slots.len()
    }

    /// The sample clock.
    pub fn sample_clock(&self) -> (r: usize)
        ensures
            r == self@.clock,
    {
        self.samp_idx
    }

    /// Samples per buffer.
    pub fn buffer_len(&self) -> (r: usize)
        ensures
            r == self@.buffer_len,
    {
        self.buffer_len
    }

    /// The error that halted the ring, if one did.
    pub fn halted(&self) -> (r: Option<StreamError>)
        ensures
            r == self@.halted,
    {
        self.halted
    }

    /// Whether the clock can pass one more buffer.
    pub fn has_clock_room(&self) -> (r: bool)
        ensures
            r == self.clock_room(),
    {
        self.buffer_len <= usize::MAX - self.samp_idx
    }

    /// What the ring is waiting for in slot `idx`.
    pub fn phase(&self, idx: usize) -> (r: SlotPhase)
        requires
            idx < self@.slots.len(),
        ensures
            r == self@.slots[idx as int].phase,
    {
        self.slots[idx].phase
    }

    /// Recoveries spent on slot `idx` since its last successful completion.
    pub fn attempts(&self, idx: usize) -> (r: usize)
        requires
            idx < self@.slots.len(),
        ensures
            r == self@.slots[idx as int].attempts,
    {
        self.slots[idx].attempts
    }

    /// The state of the submission that holds the buffer of slot `idx`: it is
    /// submitted while the slot is in flight, and idle while the slot waits
    /// for its submit call.
    pub fn submission_state(&self, idx: usize) -> (r: SubmissionState)
        requires
            self.wf(),
            idx < self@.slots.len(),
        ensures
            self@.slots[idx as int].phase is InFlight ==> r is Submitted,
            self@.slots[idx as int].phase is Queued || self@.slots[idx as int].phase
                is NeedsRecovery || self@.slots[idx as int].phase is Submitting ==> r is Idle,
    {
        match &self.slots[idx].sub {
            Some(sub) => sub.current(),
            None => unreached(),
        }
    }

    /// The buffer of slot `idx`, with the layout of its native descriptor.
    pub fn transfer(&self, idx: usize) -> (r: &Transfer)
        requires
            self.wf(),
            idx < self@.slots.len(),
        ensures
            r@ == self@.slots[idx as int].buffer,
            r.layout() == self@.slots[idx as int].layout,
            r.slot() == idx,
    {
        match &self.slots[idx].sub {
            Some(sub) => sub.transfer(),
            None => unreached(),
        }
    }

    /// Decides what the driver has to do next.
    ///
    /// A halted ring says so. Otherwise the lowest slot that needs the driver
    /// is served: a slot that asks for the bus recovery gets it and is queued
    /// for its retry; a queued slot hands out its completion context for the
    /// native submit call. When no slot needs the driver, it waits.
    pub fn next_action(&mut self) -> (r: RingAction)
        requires
            old(self).wf(),
        ensures
            final(self).wf(),
            match r {
                RingAction::Halt(e) => {
                    &&& old(self)@.halted == Some(e)
                    &&& final(self)@ == old(self)@
                },
                RingAction::Wait => {
                    &&& old(self)@.halted is None
                    &&& old(self)@.none_waiting()
                    &&& final(self)@ == old(self)@
                },
                RingAction::Recover(idx) => {
                    &&& old(self)@.halted is None
                    &&& old(self)@.first_waiting(idx as int)
                    &&& old(self)@.slots[idx as int].phase is NeedsRecovery
                    &&& final(self)@ == old(self)@.with_phase(idx as int, SlotPhase::Queued)
                },
                RingAction::Submit(idx, ctx) => {
                    &&& old(self)@.halted is None
                    &&& old(self)@.first_waiting(idx as int)
                    &&& old(self)@.slots[idx as int].phase is Queued
                    &&& ctx.slot() == idx
                    &&& ctx.armed()
                    &&& final(self)@ == old(self)@.with_phase(idx as int, SlotPhase::Submitting)
                },
            },
    {
        if let Some(e) = self.halted {
            return RingAction::Halt(e);
        }
        let n: usize = self.slots.len();
        let mut i: usize = 0;
        while i < n
            invariant
                i <= n,
                n == self.slots@.len(),
                *self == *old(self),
                self.wf(),
                self.halted is None,
                forall|j: int| 0 <= j < i ==> !(#[trigger] self@.slots[j]).waiting(),
            decreases n - i,
        {
            match self.slots[i].phase {
                SlotPhase::NeedsRecovery => {
                    self.slots[i].phase = SlotPhase::Queued;
                    assert(self@.slots =~= old(self)@.with_phase(
                        i as int,
                        SlotPhase::Queued,
                    ).slots);
                    return RingAction::Recover(i);
                },
                SlotPhase::Queued => {
                    let step = match &mut self.slots[i].sub {
                        Some(sub) => sub.poll(),
                        None => unreached(),
                    };
                    self.slots[i].phase = SlotPhase::Submitting;
                    assert(self@.slots =~= old(self)@.with_phase(
                        i as int,
                        SlotPhase::Submitting,
                    ).slots);
                    return match step {
                        PollStep::Submit(ctx) => RingAction::Submit(i, ctx),
                        _ => unreached(),
                    };
                },
                _ => {},
            }
            i += 1;
        }
        RingAction::Wait
    }

    /// The ring is consistent but for slot `idx`, whose submission has resolved
    /// and waits to be dealt with.
    spec fn settling(&self, idx: int) -> bool {
        &&& self@.wf()
        &&& 0 <= idx < self.slots@.len()
        &&& forall|j: int|
            0 <= j < self.slots@.len() && j != idx ==> (#[trigger] self.slots@[j]).wf(j)
        &&& self.slots@[idx].sub is Some
        &&& self.slots@[idx].held().slot() == idx
        &&& self.slots@[idx].held().state().resolved()
    }

    /// Carries out `verdict` on slot `idx`, whose submission has resolved.
    fn carry_out(&mut self, idx: usize, verdict: Verdict)
        requires
            old(self).settling(idx as int),
            verdict is Refill ==> old(self).clock_room(),
            verdict is Recover ==> old(self)@.slots[idx as int].attempts < old(self)@.retry_bound,
        ensures
            final(self).wf(),
            final(self)@ == old(self)@.judged(idx as int, verdict),
    {
        assert(self@.slots[idx as int].buffer.len() == self@.buffer_len);
        match verdict {
            Verdict::Refill => {
                let slot = &mut self.slots[idx];
                let xfer = match slot.sub.take() {
                    Some(sub) => match sub.release() {
                        Ok(xfer) => xfer,
                        Err(_) => unreached(),
                    },
                    None => unreached(),
                };
                slot.sub = Some(xfer.submit(&mut self.samp_idx, &self.wave));
                slot.attempts = 0;
                slot.phase = SlotPhase::Queued;
                self.fills = Ghost(self.fills@ + 1);
                proof {
                    let fills = old(self)@.fills;
                    let len = old(self)@.buffer_len;
                    assert((fills + 1) * len == fills * len + len) by (nonlinear_arith);
                }
            },
            Verdict::Recover => {
                let slot = &mut self.slots[idx];
                let xfer = match slot.sub.take() {
                    Some(sub) => match sub.release() {
                        Ok(xfer) => xfer,
                        Err(_) => unreached(),
                    },
                    None => unreached(),
                };
                slot.sub = Some(Submission::new(xfer));
                slot.attempts = slot.attempts + 1;
                slot.phase = SlotPhase::NeedsRecovery;
                self.recoveries = Ghost(self.recoveries@ + 1);
            },
            Verdict::Halt(e) => {
                if self.halted.is_none() {
                    self.halted = Some(e);
                }
                self.slots[idx].phase = SlotPhase::Dead;
            },
        }
        assert(self@.slots =~= old(self)@.judged(idx as int, verdict).slots);
    }

    /// Deals with a failure of slot `idx`.
    fn fail(&mut self, idx: usize, e: StreamError)
        requires
            old(self).settling(idx as int),
        ensures
            final(self).wf(),
            final(self)@ == old(self)@.failed(idx as int, e),
    {
        let verdict = judge_failure(e, self.slots[idx].attempts, self.retry_bound);
        self.carry_out(idx, verdict);
    }

    /// Deals with the resolved submission of slot `idx`.
    fn settle(&mut self, idx: usize, outcome: Result<TransferResult, StreamError>)
        requires
            old(self).settling(idx as int),
            old(self).clock_room(),
        ensures
            final(self).wf(),
            final(self)@ == old(self)@.settled(idx as int, outcome),
    {
        let verdict = judge(outcome, self.slots[idx].attempts, self.retry_bound);
        self.carry_out(idx, verdict);
    }

    /// Takes in the code that the native submit call for slot `idx` returned.
    ///
    /// Zero puts the slot in flight; any other code is a failure of the slot.
    /// A report for a slot that is not waiting for one is refused as a
    /// protocol violation and changes nothing.
    pub fn submit_result(&mut self, idx: usize, code: i32) -> (r: Result<(), StreamError>)
        requires
            old(self).wf(),
        ensures
            final(self).wf(),
            r is Ok <==> idx < old(self)@.slots.len() && old(self)@.slots[idx as int].phase
                is Submitting,
            r is Ok ==> final(self)@ == old(self)@.submit_reported(idx as int, code),
            r is Err ==> r->Err_0 == StreamError::ProtocolViolation && final(self)@ == old(self)@,
    {
        if idx >= self.slots.len() {
            return Err(StreamError::ProtocolViolation);
        }
        match self.slots[idx].phase {
            SlotPhase::Submitting => {},
            _ => {
                return Err(StreamError::ProtocolViolation);
            },
        }
        self.submit_calls = Ghost(self.submit_calls@ + 1);
        let ghost counted = RingView { submit_calls: old(self)@.submit_calls + 1, ..old(self)@ };
        match &mut self.slots[idx].sub {
            Some(sub) => {
                let _ = sub.submitted(code);
            },
            None => unreached(),
        }
        assert(self@.slots =~= counted.slots);
        if code == 0 {
            self.slots[idx].phase = SlotPhase::InFlight;
            assert(self@.slots =~= counted.with_phase(idx as int, SlotPhase::InFlight).slots);
        } else {
            assert(self@.wf()) by {
                assert forall|i: int| 0 <= i < self@.slots.len() implies {
                    &&& (#[trigger] self@.slots[i]).buffer.len() == self@.buffer_len
                    &&& self@.slots[i].attempts <= self@.retry_bound
                } by {
                    assert(self@.slots[i] == old(self)@.slots[i]);
                }
            }
            self.fail(idx, StreamError::SubmitFailed(code));
        }
        Ok(())
    }

    /// Takes in what the result slot of slot `idx` gave, and deals with the
    /// submission if that resolved it.
    ///
    /// For a slot in flight, a result for this slot completes the submission
    /// and a broken result slot or a result for another slot fails it; the
    /// ring then settles the slot and the call returns what the submission
    /// resolved with. An empty result slot, a slot that is not in flight and
    /// an index beyond the ring change nothing and return nothing.
    pub fn observe(&mut self, idx: usize, received: Result<Option<TransferResult>, Canceled>) -> (r:
        Option<Result<TransferResult, StreamError>>)
        requires
            old(self).wf(),
            old(self).clock_room(),
        ensures
            final(self).wf(),
            r == old(self)@.resolution(
                idx,
                match received {
                    Ok(v) => Some(v),
                    Err(_) => None,
                },
            ),
            final(self)@ == old(self)@.observed(
                idx,
                match received {
                    Ok(v) => Some(v),
                    Err(_) => None,
                },
            ),
    {
        if idx >= self.slots.len() {
            return None;
        }
        match self.slots[idx].phase {
            SlotPhase::InFlight => {},
            _ => {
                return None;
            },
        }
        let out = match &mut self.slots[idx].sub {
            Some(sub) => sub.resolve(received),
            None => unreached(),
        };
        assert(self@.slots =~= old(self)@.slots);
        match out {
            PollOutcome::Pending => None,
            PollOutcome::Ready(outcome) => {
                self.settle(idx, outcome);
                Some(outcome)
            },
        }
    }

    /// Polls the slots in flight, lowest index first, and deals with the first
    /// submission that has resolved.
    ///
    /// Returns the slot and what its submission resolved with: a successful
    /// completion refills that buffer and queues it again; a nonzero status
    /// or a failure costs the slot a recovery or halts the ring. Every other
    /// slot is left as it was. Without a resolved submission nothing changes.
    pub fn poll_first(&mut self) -> (r: Option<(usize, Result<TransferResult, StreamError>)>)
        requires
            old(self).wf(),
            old(self).clock_room(),
        ensures
            final(self).wf(),
            match r {
                None => final(self)@ == old(self)@,
                Some((idx, outcome)) => {
                    &&& idx < old(self)@.slots.len()
                    &&& old(self)@.slots[idx as int].phase is InFlight
                    &&& outcome is Ok ==> outcome->Ok_0.idx == idx
                    &&& final(self)@ == old(self)@.settled(idx as int, outcome)
                },
            },
    {
        let n: usize = self.slots.len();
        let mut i: usize = 0;
        while i < n
            invariant
                i <= n,
                n == self.slots@.len(),
                self.wf(),
                self.clock_room(),
                self@ == old(self)@,
            decreases n - i,
        {
            match self.slots[i].phase {
                SlotPhase::InFlight => {
                    let received = match &mut self.slots[i].sub {
                        Some(sub) => sub.receive(),
                        None => unreached(),
                    };
                    assert(self@.slots =~= old(self)@.slots);
                    match self.observe(i, received) {
                        Some(outcome) => {
                            return Some((i, outcome));
                        },
                        None => {},
                    }
                },
                _ => {},
            }
            i += 1;
        }
        None
    }
}

} // verus!
