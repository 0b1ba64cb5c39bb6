use futures::channel::oneshot::Canceled;
use iso_stream::config::Config;
use iso_stream::error::StreamError;
use iso_stream::ring::{judge, judge_failure, RingAction, SlotPhase, SubmissionRing, Verdict};
use iso_stream::submission::SubmissionState;
use iso_stream::signal::Waveform;
use iso_stream::transfer::{Transfer, TransferContext, TransferResult};

fn table() -> Vec<i16> {
    (0..1200).map(|i| ((i * 37) % 2001 - 1000) as i16).collect()
}

fn stream(depth: usize) -> Config {
    Config {
        vid: 0x0bda,
        pid: 0x48a8,
        iface: 1,
        ep: 4,
        set_enabled: 2,
        set_disable: 0,
        pkt_sz: 192,
        pkt_cnt: 10,
        buff_cnt: depth,
    }
}

fn buffers(cfg: &Config) -> Vec<Transfer> {
    (0..cfg.buff_cnt).map(|idx| Transfer::new(idx, cfg, true).unwrap()).collect()
}

fn ring_of(depth: usize, retry_bound: usize) -> SubmissionRing {
    let cfg = stream(depth);
    SubmissionRing::new(&cfg, Waveform::new(table()).unwrap(), retry_bound, buffers(&cfg)).unwrap()
}

fn run_of(start: usize, len: usize) -> Vec<i16> {
    let t = table();
    (0..len).map(|k| t[(start + k) % t.len()]).collect()
}

fn expect_submit(ring: &mut SubmissionRing, slot: usize) -> TransferContext {
    match ring.next_action() {
        RingAction::Submit(idx, ctx) => {
            assert_eq!(idx, slot);
            assert_eq!(ctx.idx(), slot);
            assert!(ctx.is_armed());
            ctx
        }
        _ => panic!("the ring should ask for a submit"),
    }
}

fn expect_recover(ring: &mut SubmissionRing, slot: usize) {
    match ring.next_action() {
        RingAction::Recover(idx) => assert_eq!(idx, slot),
        _ => panic!("the ring should ask for a recovery"),
    }
}

fn expect_wait(ring: &mut SubmissionRing) {
    assert!(matches!(ring.next_action(), RingAction::Wait));
}

fn launch(ring: &mut SubmissionRing) -> Vec<TransferContext> {
    let mut contexts = Vec::new();
    for slot in 0..ring.depth() {
        let ctx = expect_submit(ring, slot);
        assert_eq!(ring.phase(slot), SlotPhase::Submitting);
        assert_eq!(ring.submit_result(slot, 0), Ok(()));
        assert_eq!(ring.phase(slot), SlotPhase::InFlight);
        contexts.push(ctx);
    }
    contexts
}

#[test]
fn new_ring_gives_every_buffer_its_first_fill() {
    let ring = ring_of(3, 2);
    assert_eq!(ring.depth(), 3);
    assert_eq!(ring.buffer_len(), 960);
    assert_eq!(ring.sample_clock(), 2880);
    assert_eq!(ring.halted(), None);
    assert!(ring.has_clock_room());
    for slot in 0..3 {
        assert_eq!(ring.phase(slot), SlotPhase::Queued);
        assert_eq!(ring.attempts(slot), 0);
        assert_eq!(ring.transfer(slot).idx(), slot);
        assert_eq!(ring.transfer(slot).buffer(), &run_of(slot * 960, 960));
    }
}

#[test]
fn ring_refuses_buffers_that_do_not_fit() {
    let cfg = stream(3);
    let wave = || Waveform::new(table()).unwrap();

    let mut short = buffers(&cfg);
    short.pop();
    assert_eq!(
        SubmissionRing::new(&cfg, wave(), 2, short).err(),
        Some(StreamError::ProtocolViolation)
    );

    let mut swapped = buffers(&cfg);
    swapped.swap(0, 1);
    assert_eq!(
        SubmissionRing::new(&cfg, wave(), 2, swapped).err(),
        Some(StreamError::ProtocolViolation)
    );

    let small = Config { pkt_cnt: 5, ..cfg };
    assert_eq!(
        SubmissionRing::new(&cfg, wave(), 2, buffers(&small)).err(),
        Some(StreamError::ProtocolViolation)
    );
}

#[test]
fn ring_without_slots_only_waits() {
    let mut ring = ring_of(0, 2);
    assert_eq!(ring.depth(), 0);
    assert_eq!(ring.sample_clock(), 0);
    expect_wait(&mut ring);
    assert_eq!(ring.poll_first(), None);
    assert_eq!(ring.submit_result(0, 0), Err(StreamError::ProtocolViolation));
}

#[test]
fn launch_submits_every_slot_in_order() {
    let mut ring = ring_of(3, 2);
    let contexts = launch(&mut ring);
    assert_eq!(contexts.len(), 3);
    expect_wait(&mut ring);
    assert_eq!(ring.poll_first(), None);
    assert_eq!(ring.sample_clock(), 2880);
}

#[test]
fn submit_report_for_a_slot_that_waits_for_none_is_refused() {
    let mut ring = ring_of(2, 2);
    assert_eq!(ring.submit_result(0, 0), Err(StreamError::ProtocolViolation));
    assert_eq!(ring.submit_result(7, 0), Err(StreamError::ProtocolViolation));
    assert_eq!(ring.phase(0), SlotPhase::Queued);
    let _ctx = expect_submit(&mut ring, 0);
    assert_eq!(ring.submit_result(1, 0), Err(StreamError::ProtocolViolation));
    assert_eq!(ring.submit_result(0, 0), Ok(()));
    assert_eq!(ring.submit_result(0, 0), Err(StreamError::ProtocolViolation));
    assert_eq!(ring.phase(0), SlotPhase::InFlight);
    assert_eq!(ring.phase(1), SlotPhase::Queued);
}

#[test]
fn only_the_completed_slot_is_refilled() {
    let mut ring = ring_of(3, 2);
    let mut contexts = launch(&mut ring);
    let slot0 = ring.transfer(0).buffer().clone();
    let slot2 = ring.transfer(2).buffer().clone();

    assert_eq!(contexts[1].complete(0, 1920), Ok(()));
    let expected = TransferResult { idx: 1, status: 0, actual_length: 1920 };
    assert_eq!(ring.poll_first(), Some((1, Ok(expected))));

    assert_eq!(ring.transfer(0).buffer(), &slot0);
    assert_eq!(ring.transfer(2).buffer(), &slot2);
    assert_eq!(ring.phase(0), SlotPhase::InFlight);
    assert_eq!(ring.phase(2), SlotPhase::InFlight);
    assert_eq!(ring.submission_state(0), SubmissionState::Submitted);
    assert_eq!(ring.submission_state(2), SubmissionState::Submitted);
    assert_eq!(ring.submission_state(1), SubmissionState::Idle);
    assert_eq!(ring.phase(1), SlotPhase::Queued);
    assert_eq!(ring.transfer(1).buffer(), &run_of(2880, 960));
    assert_eq!(ring.sample_clock(), 3840);

    let ctx = expect_submit(&mut ring, 1);
    assert_eq!(ring.submit_result(1, 0), Ok(()));
    contexts[1] = ctx;
    expect_wait(&mut ring);
    assert_eq!(ring.poll_first(), None);
    assert_eq!(ring.phase(0), SlotPhase::InFlight);
    assert_eq!(ring.phase(1), SlotPhase::InFlight);
    assert_eq!(ring.phase(2), SlotPhase::InFlight);
}

#[test]
fn lowest_resolved_slot_wins() {
    let mut ring = ring_of(3, 2);
    let mut contexts = launch(&mut ring);
    assert_eq!(contexts[2].complete(0, 1920), Ok(()));
    assert_eq!(contexts[0].complete(0, 1920), Ok(()));
    let first = ring.poll_first().unwrap();
    assert_eq!(first.0, 0);
    let second = ring.poll_first().unwrap();
    assert_eq!(second.0, 2);
    assert_eq!(ring.poll_first(), None);
    assert_eq!(ring.transfer(0).buffer(), &run_of(2880, 960));
    assert_eq!(ring.transfer(2).buffer(), &run_of(3840, 960));
    assert_eq!(ring.phase(1), SlotPhase::InFlight);
}

#[test]
fn hundred_completions_make_hundred_and_three_submits() {
    let mut ring = ring_of(3, 2);
    let mut submits = 0usize;
    let mut contexts: Vec<Option<TransferContext>> = Vec::new();
    for slot in 0..3 {
        let ctx = expect_submit(&mut ring, slot);
        assert_eq!(ring.submit_result(slot, 0), Ok(()));
        submits += 1;
        contexts.push(Some(ctx));
    }
    let mut filled_from: Vec<usize> = vec![0, 960, 1920];
    let mut seed = 12345u32;
    for round in 0..100usize {
        seed = seed.wrapping_mul(1103515245).wrapping_add(12345);
        let slot = ((seed >> 16) % 3) as usize;
        let mut ctx = contexts[slot].take().unwrap();
        assert_eq!(ctx.complete(0, 1920), Ok(()));
        let clock_before = ring.sample_clock();
        assert_eq!(clock_before, (3 + round) * 960);
        let got = ring.poll_first().unwrap();
        assert_eq!(got.0, slot);
        assert_eq!(got.1, Ok(TransferResult { idx: slot, status: 0, actual_length: 1920 }));
        assert_eq!(ring.sample_clock(), clock_before + 960);
        filled_from[slot] = clock_before;
        for other in 0..3 {
            assert_eq!(ring.transfer(other).buffer(), &run_of(filled_from[other], 960));
        }
        let next = expect_submit(&mut ring, slot);
        assert_eq!(ring.submit_result(slot, 0), Ok(()));
        submits += 1;
        contexts[slot] = Some(next);
        expect_wait(&mut ring);
    }
    assert_eq!(submits, 103);
    assert_eq!(ring.sample_clock(), 103 * 960);
    assert_eq!(ring.halted(), None);
    for slot in 0..3 {
        assert_eq!(ring.phase(slot), SlotPhase::InFlight);
        assert_eq!(ring.attempts(slot), 0);
    }
}

#[test]
fn submit_that_fails_twice_then_succeeds_completes() {
    let mut ring = ring_of(3, 2);
    let first = ring.transfer(0).buffer().clone();

    let _c0 = expect_submit(&mut ring, 0);
    assert_eq!(ring.submit_result(0, -1), Ok(()));
    assert_eq!(ring.phase(0), SlotPhase::NeedsRecovery);
    assert_eq!(ring.attempts(0), 1);
    expect_recover(&mut ring, 0);
    assert_eq!(ring.phase(0), SlotPhase::Queued);

    let _c1 = expect_submit(&mut ring, 0);
    assert_eq!(ring.submit_result(0, -1), Ok(()));
    assert_eq!(ring.attempts(0), 2);
    expect_recover(&mut ring, 0);

    let mut ctx = expect_submit(&mut ring, 0);
    assert_eq!(ring.submit_result(0, 0), Ok(()));
    assert_eq!(ring.phase(0), SlotPhase::InFlight);
    assert_eq!(ring.halted(), None);
    assert_eq!(ring.transfer(0).buffer(), &first);
    assert_eq!(ring.sample_clock(), 2880);

    let _s1 = expect_submit(&mut ring, 1);
    assert_eq!(ring.submit_result(1, 0), Ok(()));
    let _s2 = expect_submit(&mut ring, 2);
    assert_eq!(ring.submit_result(2, 0), Ok(()));

    assert_eq!(ctx.complete(0, 1920), Ok(()));
    let expected = TransferResult { idx: 0, status: 0, actual_length: 1920 };
    assert_eq!(ring.poll_first(), Some((0, Ok(expected))));
    assert_eq!(ring.attempts(0), 0);
    assert_eq!(ring.phase(0), SlotPhase::Queued);
    assert_eq!(ring.halted(), None);
}

#[test]
fn submit_that_always_fails_halts_after_two_recoveries() {
    let mut ring = ring_of(3, 2);
    let mut recoveries = 0usize;
    let mut submits = 0usize;
    let halted = loop {
        match ring.next_action() {
            RingAction::Submit(idx, _ctx) => {
                assert_eq!(idx, 0);
                submits += 1;
                assert_eq!(ring.submit_result(idx, -6), Ok(()));
            }
            RingAction::Recover(idx) => {
                assert_eq!(idx, 0);
                recoveries += 1;
            }
            RingAction::Halt(e) => break e,
            RingAction::Wait => panic!("nothing is in flight"),
        }
        assert!(submits < 10);
    };
    assert_eq!(halted, StreamError::SubmitFailed(-6));
    assert_eq!(recoveries, 2);
    assert_eq!(submits, 3);
    assert_eq!(ring.halted(), Some(StreamError::SubmitFailed(-6)));
    assert_eq!(ring.phase(0), SlotPhase::Dead);
    assert_eq!(ring.attempts(0), 2);
    assert_eq!(ring.phase(1), SlotPhase::Queued);
    assert_eq!(ring.phase(2), SlotPhase::Queued);
    assert!(matches!(ring.next_action(), RingAction::Halt(StreamError::SubmitFailed(-6))));
}

#[test]
fn retry_bound_is_configurable() {
    for bound in [0usize, 1, 5] {
        let mut ring = ring_of(2, bound);
        let mut recoveries = 0usize;
        let halted = loop {
            match ring.next_action() {
                RingAction::Submit(idx, _ctx) => {
                    assert_eq!(ring.submit_result(idx, -1), Ok(()));
                }
                RingAction::Recover(_) => recoveries += 1,
                RingAction::Halt(e) => break e,
                RingAction::Wait => panic!("nothing is in flight"),
            }
            assert!(recoveries <= bound);
        };
        assert_eq!(halted, StreamError::SubmitFailed(-1));
        assert_eq!(recoveries, bound);
    }
}

#[test]
fn nonzero_status_costs_a_recovery_and_keeps_the_samples() {
    let mut ring = ring_of(3, 2);
    let mut contexts = launch(&mut ring);
    let before = ring.transfer(2).buffer().clone();
    assert_eq!(contexts[2].complete(4, 0), Ok(()));
    let expected = TransferResult { idx: 2, status: 4, actual_length: 0 };
    assert_eq!(ring.poll_first(), Some((2, Ok(expected))));
    assert_eq!(ring.phase(2), SlotPhase::NeedsRecovery);
    assert_eq!(ring.attempts(2), 1);
    assert_eq!(ring.transfer(2).buffer(), &before);
    assert_eq!(ring.sample_clock(), 2880);
    assert_eq!(ring.halted(), None);
    assert_eq!(ring.phase(0), SlotPhase::InFlight);
    assert_eq!(ring.phase(1), SlotPhase::InFlight);

    expect_recover(&mut ring, 2);
    let mut again = expect_submit(&mut ring, 2);
    assert_eq!(ring.submit_result(2, 0), Ok(()));
    assert_eq!(again.complete(0, 1920), Ok(()));
    assert!(ring.poll_first().is_some());
    assert_eq!(ring.attempts(2), 0);
    assert_eq!(ring.transfer(2).buffer(), &run_of(2880, 960));
}

#[test]
fn status_errors_beyond_the_bound_halt_the_ring() {
    let mut ring = ring_of(1, 1);
    let mut ctx = expect_submit(&mut ring, 0);
    assert_eq!(ring.submit_result(0, 0), Ok(()));
    assert_eq!(ctx.complete(1, 0), Ok(()));
    assert!(ring.poll_first().is_some());
    expect_recover(&mut ring, 0);
    let mut ctx = expect_submit(&mut ring, 0);
    assert_eq!(ring.submit_result(0, 0), Ok(()));
    assert_eq!(ctx.complete(5, 0), Ok(()));
    let got = ring.poll_first().unwrap();
    assert_eq!(got.1, Ok(TransferResult { idx: 0, status: 5, actual_length: 0 }));
    assert_eq!(ring.halted(), Some(StreamError::TransferStatusError(5)));
    assert!(matches!(ring.next_action(), RingAction::Halt(StreamError::TransferStatusError(5))));
}

#[test]
fn lost_context_halts_the_ring_at_once() {
    let mut ring = ring_of(2, 2);
    let mut contexts = launch(&mut ring);
    let lost = contexts.remove(1);
    drop(lost);
    assert_eq!(ring.poll_first(), Some((1, Err(StreamError::ProtocolViolation))));
    assert_eq!(ring.halted(), Some(StreamError::ProtocolViolation));
    assert_eq!(ring.phase(1), SlotPhase::Dead);
    assert_eq!(ring.attempts(1), 0);
    assert_eq!(ring.phase(0), SlotPhase::InFlight);
    assert!(matches!(ring.next_action(), RingAction::Halt(StreamError::ProtocolViolation)));
}

#[test]
fn recovery_of_a_lower_slot_comes_before_a_queued_higher_slot() {
    let mut ring = ring_of(2, 2);
    let _c0 = expect_submit(&mut ring, 0);
    assert_eq!(ring.submit_result(0, -2), Ok(()));
    expect_recover(&mut ring, 0);
    let _c0 = expect_submit(&mut ring, 0);
    assert_eq!(ring.submit_result(0, 0), Ok(()));
    let _c1 = expect_submit(&mut ring, 1);
    assert_eq!(ring.submit_result(1, 0), Ok(()));
    expect_wait(&mut ring);
}

#[test]
fn verdict_on_a_resolved_submission() {
    let fine = TransferResult { idx: 0, status: 0, actual_length: 1920 };
    let stalled = TransferResult { idx: 0, status: 4, actual_length: 0 };
    assert_eq!(judge(Ok(fine), 0, 2), Verdict::Refill);
    assert_eq!(judge(Ok(fine), 2, 2), Verdict::Refill);
    assert_eq!(judge(Ok(fine), 0, 0), Verdict::Refill);
    assert_eq!(judge(Ok(stalled), 0, 2), Verdict::Recover);
    assert_eq!(judge(Ok(stalled), 1, 2), Verdict::Recover);
    assert_eq!(judge(Ok(stalled), 2, 2), Verdict::Halt(StreamError::TransferStatusError(4)));
    assert_eq!(judge(Err(StreamError::SubmitFailed(-1)), 1, 2), Verdict::Recover);
    assert_eq!(
        judge(Err(StreamError::SubmitFailed(-1)), 2, 2),
        Verdict::Halt(StreamError::SubmitFailed(-1))
    );
    assert_eq!(
        judge(Err(StreamError::ProtocolViolation), 0, 2),
        Verdict::Halt(StreamError::ProtocolViolation)
    );
}

#[test]
fn verdict_on_a_failure() {
    assert_eq!(judge_failure(StreamError::SubmitFailed(-7), 0, 1), Verdict::Recover);
    assert_eq!(
        judge_failure(StreamError::SubmitFailed(-7), 1, 1),
        Verdict::Halt(StreamError::SubmitFailed(-7))
    );
    assert_eq!(
        judge_failure(StreamError::TransferStatusError(1), 0, 0),
        Verdict::Halt(StreamError::TransferStatusError(1))
    );
    assert_eq!(
        judge_failure(StreamError::AllocationFailed, 0, 5),
        Verdict::Halt(StreamError::AllocationFailed)
    );
}

#[test]
fn observed_result_settles_its_slot() {
    let mut ring = ring_of(3, 2);
    let _contexts = launch(&mut ring);
    let slot0 = ring.transfer(0).buffer().clone();
    let slot2 = ring.transfer(2).buffer().clone();
    let res = TransferResult { idx: 1, status: 0, actual_length: 1920 };
    assert_eq!(ring.observe(1, Ok(Some(res))), Some(Ok(res)));
    assert_eq!(ring.phase(1), SlotPhase::Queued);
    assert_eq!(ring.attempts(1), 0);
    assert_eq!(ring.transfer(1).buffer(), &run_of(2880, 960));
    assert_eq!(ring.sample_clock(), 3840);
    assert_eq!(ring.transfer(0).buffer(), &slot0);
    assert_eq!(ring.transfer(2).buffer(), &slot2);
    assert_eq!(ring.phase(0), SlotPhase::InFlight);
    assert_eq!(ring.phase(2), SlotPhase::InFlight);
    assert_eq!(ring.halted(), None);
}

#[test]
fn observed_empty_slot_changes_nothing() {
    let mut ring = ring_of(3, 2);
    let _contexts = launch(&mut ring);
    let before = ring.transfer(1).buffer().clone();
    assert_eq!(ring.observe(1, Ok(None)), None);
    assert_eq!(ring.phase(1), SlotPhase::InFlight);
    assert_eq!(ring.submission_state(1), SubmissionState::Submitted);
    assert_eq!(ring.transfer(1).buffer(), &before);
    assert_eq!(ring.sample_clock(), 2880);
    assert_eq!(ring.halted(), None);
}

#[test]
fn observed_status_error_costs_a_recovery() {
    let mut ring = ring_of(3, 1);
    let _contexts = launch(&mut ring);
    let before = ring.transfer(2).buffer().clone();
    let res = TransferResult { idx: 2, status: 6, actual_length: 0 };
    assert_eq!(ring.observe(2, Ok(Some(res))), Some(Ok(res)));
    assert_eq!(ring.phase(2), SlotPhase::NeedsRecovery);
    assert_eq!(ring.attempts(2), 1);
    assert_eq!(ring.transfer(2).buffer(), &before);
    assert_eq!(ring.sample_clock(), 2880);
    assert_eq!(ring.halted(), None);

    expect_recover(&mut ring, 2);
    let _ctx = expect_submit(&mut ring, 2);
    assert_eq!(ring.submit_result(2, 0), Ok(()));
    assert_eq!(ring.observe(2, Ok(Some(res))), Some(Ok(res)));
    assert_eq!(ring.halted(), Some(StreamError::TransferStatusError(6)));
    assert_eq!(ring.phase(2), SlotPhase::Dead);
    assert_eq!(ring.attempts(2), 1);
}

#[test]
fn observed_broken_slot_halts_the_ring() {
    let mut ring = ring_of(2, 2);
    let _contexts = launch(&mut ring);
    assert_eq!(ring.observe(0, Err(Canceled)), Some(Err(StreamError::ProtocolViolation)));
    assert_eq!(ring.halted(), Some(StreamError::ProtocolViolation));
    assert_eq!(ring.phase(0), SlotPhase::Dead);
    assert_eq!(ring.phase(1), SlotPhase::InFlight);
}

#[test]
fn observed_result_for_another_slot_is_a_protocol_violation() {
    let mut ring = ring_of(2, 2);
    let _contexts = launch(&mut ring);
    let stray = TransferResult { idx: 0, status: 0, actual_length: 1920 };
    assert_eq!(ring.observe(1, Ok(Some(stray))), Some(Err(StreamError::ProtocolViolation)));
    assert_eq!(ring.halted(), Some(StreamError::ProtocolViolation));
    assert_eq!(ring.phase(1), SlotPhase::Dead);
    assert_eq!(ring.sample_clock(), 1920);
}

#[test]
fn observing_a_slot_that_is_not_in_flight_changes_nothing() {
    let mut ring = ring_of(2, 2);
    let res = TransferResult { idx: 0, status: 0, actual_length: 1920 };
    assert_eq!(ring.observe(0, Ok(Some(res))), None);
    assert_eq!(ring.observe(0, Err(Canceled)), None);
    assert_eq!(ring.observe(2, Ok(Some(res))), None);
    assert_eq!(ring.phase(0), SlotPhase::Queued);
    assert_eq!(ring.sample_clock(), 1920);
    assert_eq!(ring.halted(), None);
    let _ctx = expect_submit(&mut ring, 0);
    assert_eq!(ring.observe(0, Ok(Some(res))), None);
    assert_eq!(ring.phase(0), SlotPhase::Submitting);
}
