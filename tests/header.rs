use linux_futex::{Futex, Shared};
use shmlock::lock::{next_step, AcquireError, AcquireEvent, AcquireStep, WaitOutcome};
use shmlock::protocol::{creator_update, opener_update};
use shmlock::shared::{wait_slice, Held, SharedData, INITIAL_NUMBER, MAX_WAIT_NS};
use std::sync::atomic::AtomicI64;
use std::time::Instant;

fn elapsed(start: &Instant) -> u64 {
    start.elapsed().as_nanos() as u64
}

fn acquire_within(data: &SharedData<'_>, timeout_ns: u64) -> Result<Held, AcquireError> {
    let start = Instant::now();
    let mut held: Option<Held> = None;
    let mut event = AcquireEvent::Started;
    loop {
        event = match next_step(Some(timeout_ns), event) {
            AcquireStep::Acquired => return Ok(held.expect("won attempt")),
            AcquireStep::Failed(e) => return Err(e),
            AcquireStep::Attempt => {
                held = data.try_lock();
                let won = held.is_some();
                AcquireEvent::Attempted { won, elapsed_ns: elapsed(&start) }
            }
            AcquireStep::Wait(limit) => {
                let outcome = data.wait_while_locked(limit);
                AcquireEvent::Waited { outcome, elapsed_ns: elapsed(&start) }
            }
        };
    }
}

#[test]
fn fresh_header_reads_initial_number() {
    let futex: Futex<Shared> = Futex::new(7);
    let number = AtomicI64::new(-1);
    let data = SharedData::new(&futex, &number);
    data.initialize();
    let held = data.try_lock().expect("fresh header is unlocked");
    assert_eq!(data.get_number(), INITIAL_NUMBER);
    assert_eq!(data.get_number(), 100);
    data.unlock(held);
}

#[test]
fn try_lock_fails_while_held() {
    let futex: Futex<Shared> = Futex::new(0);
    let number = AtomicI64::new(0);
    let data = SharedData::new(&futex, &number);
    let held = data.try_lock().expect("free lock");
    assert!(data.try_lock().is_none());
    data.unlock(held);
    let held = data.try_lock().expect("released lock");
    data.unlock(held);
}

#[test]
fn set_then_get_number() {
    let futex: Futex<Shared> = Futex::new(0);
    let number = AtomicI64::new(0);
    let data = SharedData::new(&futex, &number);
    let held = data.try_lock().expect("free lock");
    data.set_number(&held, -42);
    assert_eq!(data.get_number(), -42);
    data.unlock(held);
}

#[test]
fn wait_on_unlocked_word_returns_at_once() {
    let futex: Futex<Shared> = Futex::new(0);
    let number = AtomicI64::new(0);
    let data = SharedData::new(&futex, &number);
    assert_eq!(data.wait_while_locked(Some(1_000_000_000)), WaitOutcome::WrongValue);
    assert_eq!(data.wait_while_locked(Some(u64::MAX)), WaitOutcome::WrongValue);
    assert_eq!(data.wait_while_locked(None), WaitOutcome::WrongValue);
}

#[test]
fn wait_on_held_word_times_out() {
    let futex: Futex<Shared> = Futex::new(0);
    let number = AtomicI64::new(0);
    let data = SharedData::new(&futex, &number);
    let _held = data.try_lock().expect("free lock");
    assert_eq!(data.wait_while_locked(Some(1_000_000)), WaitOutcome::TimedOut);
}

#[test]
fn wait_slices_are_bounded() {
    assert_eq!(wait_slice(5), 5);
    assert_eq!(wait_slice(MAX_WAIT_NS), MAX_WAIT_NS);
    assert_eq!(wait_slice(MAX_WAIT_NS + 1), MAX_WAIT_NS);
    assert_eq!(wait_slice(u64::MAX), 2_147_483_647_000_000_000);
}

#[test]
fn acquire_of_never_released_lock_times_out() {
    let futex: Futex<Shared> = Futex::new(0);
    let number = AtomicI64::new(0);
    let data = SharedData::new(&futex, &number);
    data.initialize();
    let _held = data.try_lock().expect("free lock");
    let start = Instant::now();
    assert!(matches!(acquire_within(&data, 50_000_000), Err(AcquireError::TimedOut)));
    assert!(start.elapsed().as_millis() >= 50);
    assert!(data.try_lock().is_none());
    assert_eq!(data.get_number(), INITIAL_NUMBER);
}

#[test]
fn acquire_of_free_lock_succeeds() {
    let futex: Futex<Shared> = Futex::new(0);
    let number = AtomicI64::new(0);
    let data = SharedData::new(&futex, &number);
    assert!(acquire_within(&data, 1_000_000_000).is_ok());
    assert!(data.try_lock().is_none());
}

#[test]
fn zero_budget_acquire_of_free_lock_succeeds() {
    let futex: Futex<Shared> = Futex::new(0);
    let number = AtomicI64::new(0);
    let data = SharedData::new(&futex, &number);
    let held = acquire_within(&data, 0).expect("free lock with no budget");
    assert!(data.try_lock().is_none());
    data.unlock(held);
    let _held = data.try_lock().expect("released lock");
    assert!(matches!(acquire_within(&data, 0), Err(AcquireError::TimedOut)));
}

#[test]
fn protocol_sequence_ends_with_800() {
    let futex: Futex<Shared> = Futex::new(0);
    let number = AtomicI64::new(0);
    let creator = SharedData::new(&futex, &number);
    creator.initialize();
    assert_eq!(creator.get_number(), 100);
    let held = acquire_within(&creator, 5_000_000_000).expect("creator's first acquire");
    creator.unlock(held);

    let opener = SharedData::new(&futex, &number);
    let held = acquire_within(&opener, 10_000_000_000).expect("opener's acquire");
    let n = opener.get_number();
    assert_eq!(n, 100);
    let v = opener_update(n).unwrap();
    assert_eq!(v, 250);
    opener.set_number(&held, v);
    opener.unlock(held);

    let held = acquire_within(&creator, 5_000_000_000).expect("creator's final acquire");
    let n = creator.get_number();
    assert_eq!(n, 250);
    let v = creator_update(n).unwrap();
    creator.set_number(&held, v);
    creator.unlock(held);
    assert_eq!(creator.get_number(), 800);
}
