use shmlock::layout::{header_fits, HEADER_SIZE, PAYLOAD_OFFSET};
use shmlock::lock::{next_step, AcquireError, AcquireEvent, AcquireStep, WaitOutcome};
use shmlock::protocol::{creator_update, opener_update, secs_to_ns};

#[test]
fn start_within_budget_attempts() {
    assert_eq!(next_step(Some(1000), AcquireEvent::Started), AcquireStep::Attempt);
    assert_eq!(next_step(None, AcquireEvent::Started), AcquireStep::Attempt);
}

#[test]
fn start_with_spent_budget_still_attempts() {
    let r = next_step(Some(0), AcquireEvent::Started);
    assert_eq!(r, AcquireStep::Attempt);
    let r = next_step(Some(0), AcquireEvent::Attempted { won: true, elapsed_ns: 5 });
    assert_eq!(r, AcquireStep::Acquired);
    let r = next_step(Some(0), AcquireEvent::Attempted { won: false, elapsed_ns: 5 });
    assert_eq!(r, AcquireStep::Failed(AcquireError::TimedOut));
}

#[test]
fn won_attempt_acquires_even_when_late() {
    let r = next_step(Some(10), AcquireEvent::Attempted { won: true, elapsed_ns: 50 });
    assert_eq!(r, AcquireStep::Acquired);
}

#[test]
fn lost_attempt_waits_for_remaining_budget() {
    let r = next_step(Some(1000), AcquireEvent::Attempted { won: false, elapsed_ns: 300 });
    assert_eq!(r, AcquireStep::Wait(Some(700)));
}

#[test]
fn lost_attempt_without_budget_waits_unbounded() {
    let r = next_step(None, AcquireEvent::Attempted { won: false, elapsed_ns: 300 });
    assert_eq!(r, AcquireStep::Wait(None));
}

#[test]
fn lost_attempt_with_spent_budget_times_out() {
    let r = next_step(Some(1000), AcquireEvent::Attempted { won: false, elapsed_ns: 1000 });
    assert_eq!(r, AcquireStep::Failed(AcquireError::TimedOut));
}

#[test]
fn interrupted_wait_fails() {
    let ev = AcquireEvent::Waited { outcome: WaitOutcome::Interrupted, elapsed_ns: 1 };
    assert_eq!(next_step(Some(1000), ev), AcquireStep::Failed(AcquireError::Interrupted));
}

#[test]
fn wake_and_wrong_value_retry() {
    for outcome in [WaitOutcome::Woken, WaitOutcome::WrongValue, WaitOutcome::TimedOut] {
        let ev = AcquireEvent::Waited { outcome, elapsed_ns: 10 };
        assert_eq!(next_step(Some(1000), ev), AcquireStep::Attempt);
        assert_eq!(next_step(None, ev), AcquireStep::Attempt);
    }
}

#[test]
fn expired_wait_times_out() {
    let ev = AcquireEvent::Waited { outcome: WaitOutcome::TimedOut, elapsed_ns: 5000 };
    assert_eq!(next_step(Some(5000), ev), AcquireStep::Failed(AcquireError::TimedOut));
}

#[test]
fn header_layout_sizes() {
    assert_eq!(HEADER_SIZE, 16);
    assert_eq!(PAYLOAD_OFFSET, 8);
    assert!(header_fits(16));
    assert!(header_fits(4096));
    assert!(!header_fits(15));
    assert!(!header_fits(0));
}

#[test]
fn payload_updates() {
    assert_eq!(opener_update(100), Some(250));
    assert_eq!(creator_update(250), Some(800));
    assert_eq!(opener_update(-25), Some(0));
    assert_eq!(creator_update(-20), Some(-10));
}

#[test]
fn payload_updates_overflow() {
    assert_eq!(opener_update(i64::MAX), None);
    assert_eq!(opener_update(i64::MAX / 2 - 25), Some(i64::MAX - 1));
    assert_eq!(opener_update(i64::MAX / 2 - 24), None);
    assert_eq!(creator_update(i64::MIN), None);
    assert_eq!(creator_update((i64::MAX - 50) / 3), Some(i64::MAX - 2));
    assert_eq!(creator_update((i64::MAX - 50) / 3 + 1), None);
}

#[test]
fn seconds_to_nanoseconds() {
    assert_eq!(secs_to_ns(5), Some(5_000_000_000));
    assert_eq!(secs_to_ns(0), Some(0));
    assert_eq!(secs_to_ns(u64::MAX), None);
}
