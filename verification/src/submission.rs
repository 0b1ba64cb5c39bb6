use crate::error::StreamError;
use crate::native::{result_channel, try_recv_result};
use crate::transfer::{Transfer, TransferContext, TransferResult};
use futures::channel::oneshot::{Canceled, Receiver, Sender};
use vstd::prelude::*;

verus! {

/// Where a submission stands in its life.
#[derive(Debug, Clone, Copy, PartialEq, Eq, Structural)]
pub enum SubmissionState {
    /// Created; the native layer has not accepted the transfer yet.
    Idle,
    /// Accepted by the native layer; the completion is awaited.
    Submitted,
    /// The completion callback delivered this result.
    Completed(TransferResult),
    /// The submit call was rejected, or the result slot broke.
    Failed(StreamError),
}

impl SubmissionState {
    /// The two final states.
    pub open spec fn resolved(self) -> bool {
        self is Completed || self is Failed
    }

    /// What a poll reports of a submission that rests in this state.
    pub open spec fn outcome(self) -> PollOutcome {
        match self {
            SubmissionState::Idle => PollOutcome::Pending,
            SubmissionState::Submitted => PollOutcome::Pending,
            SubmissionState::Completed(res) => PollOutcome::Ready(Ok(res)),
            SubmissionState::Failed(e) => PollOutcome::Ready(Err(e)),
        }
    }
}

/// What a poll tells the scheduler.
#[derive(Debug, Clone, Copy, PartialEq, Eq)]
pub enum PollOutcome {
    /// Nothing yet: stay suspended.
    Pending,
    /// The submission has resolved.
    Ready(Result<TransferResult, StreamError>),
}

/// What the caller of a poll has to do.
pub enum PollStep {
    /// First poll: install this context in the native descriptor, issue the
    /// native submit call and report its code with `submitted`.
    Submit(TransferContext),
    /// Nothing yet: stay suspended.
    Pending,
    /// The submission has resolved.
    Ready(Result<TransferResult, StreamError>),
}

/// A single request in flight over one buffer.
///
/// The submission holds its buffer: nobody else can fill or submit that
/// buffer until the submission has resolved and given it back.
#[derive(Debug)]
pub struct Submission {
    xfer: Transfer,
    state: SubmissionState,
    result_head: Receiver<TransferResult>,
    result_tail: Option<Sender<TransferResult>>,
}

impl Submission {
    /// The buffer that the submission holds.
    pub closed spec fn xfer(&self) -> Transfer {
        self.xfer
    }

    /// Ring slot of the buffer.
    pub open spec fn slot(&self) -> usize {
        self.xfer().slot()
    }

    /// The state of the submission.
    pub closed spec fn state(&self) -> SubmissionState {
        self.state
    }

    /// The completion context has not been handed out yet.
    pub closed spec fn holds_context(&self) -> bool {
        self.result_tail is Some
    }

    /// Newly created: idle, with its completion context still in hand.
    pub open spec fn fresh(&self) -> bool {
        self.state() is Idle && self.holds_context()
    }

    /// The state after `received` came out of the result slot of a submission
    /// in state `state` over slot `idx`.
    pub open spec fn observed(
        state: SubmissionState,
        idx: usize,
        received: Option<Option<TransferResult>>,
    ) -> SubmissionState {
        if state is Submitted {
            match received {
                None => SubmissionState::Failed(StreamError::ProtocolViolation),
                Some(None) => SubmissionState::Submitted,
                Some(Some(res)) => if res.idx == idx {
                    SubmissionState::Completed(res)
                } else {
                    SubmissionState::Failed(StreamError::ProtocolViolation)
                },
            }
        } else {
            state
        }
    }

    /// The state that follows the native submit call when it returned `code`.
    pub open spec fn accepted(code: i32) -> SubmissionState {
        if code == 0 {
            SubmissionState::Submitted
        } else {
            SubmissionState::Failed(StreamError::SubmitFailed(code))
        }
    }

    /// Creates the submission over the buffer `xfer`, idle, with a result
    /// slot of its own. The buffer moves into the submission.
    pub fn new(xfer: Transfer) -> (r: Submission)
        ensures
            r.xfer() == xfer,
            r.fresh(),
    {
        let (result_tail, result_head) = result_channel();
        Submission {
            xfer,
            state: SubmissionState::Idle,
            result_head,
            result_tail: Some(result_tail),
        }
    }

    /// Ring slot of the buffer.
    pub fn idx(&self) -> (r: usize)
        ensures
            r == self.slot(),
    {
        self.xfer.idx()
    }

    /// The buffer that the submission holds, to look at.
    pub fn transfer(&self) -> (r: &Transfer)
        ensures
            *r == self.xfer(),
    {
        &self.xfer
    }

    /// Gives the buffer back once the submission has resolved.
    ///
    /// A submission that has not resolved keeps its buffer and comes back
    /// as it was: the native layer may still use the buffer.
    pub fn release(self) -> (r: Result<Transfer, Submission>)
        ensures
            self.state().resolved() ==> r == Ok::<Transfer, Submission>(self.xfer()),
            !self.state().resolved() ==> r == Err::<Transfer, Submission>(self),
    {
        match self.state {
            SubmissionState::Completed(_) => Ok(self.xfer),
            SubmissionState::Failed(_) => Ok(self.xfer),
            _ => Err(self),
        }
    }

    /// The state of the submission.
    pub fn current(&self) -> (r: SubmissionState)
        ensures
            r == self.state(),
    {
        self.state
    }

    /// Whether the submission has reached one of its final states.
    pub fn is_resolved(&self) -> (r: bool)
        ensures
            r == self.state().resolved(),
    {
        match self.state {
            SubmissionState::Completed(_) => true,
            SubmissionState::Failed(_) => true,
            _ => false,
        }
    }

    /// Records what the native submit call returned.
    ///
    /// Zero moves an idle submission whose context is out to `Submitted`; any
    /// other code fails it with `SubmitFailed`. In every other situation the
    /// call is a protocol violation and changes nothing.
    pub fn submitted(&mut self, code: i32) -> (r: PollOutcome)
        ensures
            final(self).xfer() == old(self).xfer(),
            final(self).holds_context() == old(self).holds_context(),
            old(self).state() is Idle && !old(self).holds_context() ==> {
                &&& final(self).state() == Self::accepted(code)
                &&& r == final(self).state().outcome()
            },
            !(old(self).state() is Idle && !old(self).holds_context()) ==> {
                &&& final(self).state() == old(self).state()
                &&& r == PollOutcome::Ready(Err(StreamError::ProtocolViolation))
            },
    {
        let waiting = match self.state {
            SubmissionState::Idle => self.result_tail.is_none(),
            _ => false,
        };
        if !waiting {
            return PollOutcome::Ready(Err(StreamError::ProtocolViolation));
        }
        if code == 0 {
            self.state = SubmissionState::Submitted;
            PollOutcome::Pending
        } else {
            let e = StreamError::SubmitFailed(code);
            self.state = SubmissionState::Failed(e);
            PollOutcome::Ready(Err(e))
        }
    }

    /// Asks the result slot for the result, without a look at what it gives:
    /// the submission itself stays as it is until `resolve` takes that in.
    pub fn receive(&mut self) -> (received: Result<Option<TransferResult>, Canceled>)
        ensures
            final(self).xfer() == old(self).xfer(),
            final(self).state() == old(self).state(),
            final(self).holds_context() == old(self).holds_context(),
    {
        try_recv_result(&mut self.result_head)
    }

    /// Takes in what the result slot gave and reports where the submission
    /// stands now.
    ///
    /// A submitted request completes with a result for its own slot, stays
    /// pending while the slot is empty, and fails with a protocol violation
    /// when the slot broke or carries a result for another slot. In any other
    /// state the slot is not consulted and the state stays as it is.
    pub fn resolve(&mut self, received: Result<Option<TransferResult>, Canceled>) -> (r:
        PollOutcome)
        ensures
            final(self).xfer() == old(self).xfer(),
            final(self).holds_context() == old(self).holds_context(),
            final(self).state() == Self::observed(
                old(self).state(),
                old(self).slot(),
                match received {
                    Ok(v) => Some(v),
                    Err(_) => None,
                },
            ),
            r == final(self).state().outcome(),
    {
        match self.state {
            SubmissionState::Submitted => {
                match received {
                    Ok(Some(res)) => {
                        if res.idx == self.xfer.idx() {
                            self.state = SubmissionState::Completed(res);
                            PollOutcome::Ready(Ok(res))
                        } else {
                            self.state = SubmissionState::Failed(StreamError::ProtocolViolation);
                            PollOutcome::Ready(Err(StreamError::ProtocolViolation))
                        }
                    },
                    Ok(None) => PollOutcome::Pending,
                    Err(_) => {
                        self.state = SubmissionState::Failed(StreamError::ProtocolViolation);
                        PollOutcome::Ready(Err(StreamError::ProtocolViolation))
                    },
                }
            },
            SubmissionState::Idle => PollOutcome::Pending,
            SubmissionState::Completed(res) => PollOutcome::Ready(Ok(res)),
            SubmissionState::Failed(e) => PollOutcome::Ready(Err(e)),
        }
    }

    /// One poll of the submission.
    ///
    /// The first poll hands out the completion context, once. While the
    /// request is submitted, the result slot is consulted and the submission
    /// moves as `resolve` says. A resolved submission reports its result again
    /// and never changes.
    pub fn poll(&mut self) -> (r: PollStep)
        ensures
            final(self).xfer() == old(self).xfer(),
            old(self).fresh() ==> {
                &&& r is Submit
                &&& r->Submit_0.slot() == old(self).slot()
                &&& r->Submit_0.armed()
                &&& final(self).state() is Idle
                &&& !final(self).holds_context()
            },
            !old(self).fresh() ==> final(self).holds_context() == old(self).holds_context(),
            old(self).state() is Idle && !old(self).holds_context() ==> {
                &&& r is Pending
                &&& final(self).state() is Idle
            },
            old(self).state() is Submitted ==> {
                &&& exists|received: Option<Option<TransferResult>>|
                    final(self).state() == Self::observed(
                        old(self).state(),
                        old(self).slot(),
                        received,
                    )
                &&& final(self).state() is Submitted ==> r is Pending
                &&& final(self).state() is Completed ==> r is Ready && r->Ready_0
                    == Ok::<TransferResult, StreamError>(final(self).state()->Completed_0)
                &&& final(self).state() is Failed ==> r is Ready && r->Ready_0
                    == Err::<TransferResult, StreamError>(final(self).state()->Failed_0)
            },
            old(self).state().resolved() ==> {
                &&& final(self).state() == old(self).state()
                &&& old(self).state() is Completed ==> r is Ready && r->Ready_0
                    == Ok::<TransferResult, StreamError>(old(self).state()->Completed_0)
                &&& old(self).state() is Failed ==> r is Ready && r->Ready_0
                    == Err::<TransferResult, StreamError>(old(self).state()->Failed_0)
            },
    {
        match self.state {
            SubmissionState::Idle => {
                match self.result_tail.take() {
                    Some(tail) => PollStep::Submit(TransferContext::new(self.xfer.idx(), tail)),
                    None => PollStep::Pending,
                }
            },
            SubmissionState::Submitted => {
                let received = self.receive();
                let ghost seen: Option<Option<TransferResult>> = match received {
                    Ok(v) => Some(v),
                    Err(_) => None,
                };
                let out = self.resolve(received);
                assert(self.state() == Self::observed(old(self).state(), old(self).slot(), seen));
                match out {
                    PollOutcome::Pending => PollStep::Pending,
                    PollOutcome::Ready(res) => PollStep::Ready(res),
                }
            },
            SubmissionState::Completed(res) => PollStep::Ready(Ok(res)),
            SubmissionState::Failed(e) => PollStep::Ready(Err(e)),
        }
    }
}

} // verus!
