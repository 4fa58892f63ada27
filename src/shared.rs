//! The header of a mapped region seen as a lock word and a payload, and the
//! operations of the futex-style lock on it.
use crate::lock::{WaitOutcome, LOCKED, UNLOCKED};
use linux_futex::{Futex, Shared, TimedWaitError, WaitError};
use std::sync::atomic::{AtomicI64, AtomicU32, Ordering};
use vstd::prelude::*;

verus! {

#[verifier::external_type_specification]
#[verifier::external_body]
#[verifier::reject_recursive_types(Scope)]
pub struct ExFutex<Scope>(Futex<Scope>);

#[verifier::external_type_specification]
#[verifier::external_body]
pub struct ExShared(Shared);

#[verifier::external_type_specification]
pub struct ExWaitError(WaitError);

#[verifier::external_type_specification]
pub struct ExTimedWaitError(TimedWaitError);

/// Relies on the public field `linux_futex::Futex::value`: the atomic word
/// that the kernel waits on.
#[verifier::external_body]
fn word_of(futex: &Futex<Shared>) -> &AtomicU32 {
    &futex.value
}

/// Relies on `linux_futex::Futex::wait`: sleeps while the word holds
/// `expected` until a wake or a signal.
#[verifier::external_body]
fn futex_wait(futex: &Futex<Shared>, expected: u32) -> Result<(), WaitError> {
    futex.wait(expected)
}

/// Longest single kernel wait, in nanoseconds: `linux_futex` hands the
/// whole seconds to the kernel as a `time_t`, which is 32 bits wide on
/// 32-bit targets, and a wrapped, negative value makes the call panic.
pub const MAX_WAIT_NS: u64 = 2_147_483_647_000_000_000;

/// Relies on `linux_futex::Futex::wait_for`: as `futex_wait`, for at most
/// `timeout_ns` nanoseconds. The bound keeps the seconds within a 32-bit
/// `time_t`.
#[verifier::external_body]
fn futex_wait_for(futex: &Futex<Shared>, expected: u32, timeout_ns: u64) -> (r: Result<
    (),
    TimedWaitError,
>)
    requires
        timeout_ns <= MAX_WAIT_NS,
{
    futex.wait_for(expected, std::time::Duration::from_nanos(timeout_ns))
}

/// Relies on `linux_futex::Futex::wake`: wakes up to `n` waiters and returns
/// how many it woke.
#[verifier::external_body]
fn futex_wake(futex: &Futex<Shared>, n: i32) -> i32 {
    futex.wake(n)
}

/// The outcome of an untimed kernel wait.
pub open spec fn outcome_of_wait(r: Result<(), WaitError>) -> WaitOutcome {
    match r {
        Ok(()) => WaitOutcome::Woken,
        Err(WaitError::WrongValue) => WaitOutcome::WrongValue,
        Err(WaitError::Interrupted) => WaitOutcome::Interrupted,
    }
}

/// The outcome of a timed kernel wait.
pub open spec fn outcome_of_timed_wait(r: Result<(), TimedWaitError>) -> WaitOutcome {
    match r {
        Ok(()) => WaitOutcome::Woken,
        Err(TimedWaitError::WrongValue) => WaitOutcome::WrongValue,
        Err(TimedWaitError::Interrupted) => WaitOutcome::Interrupted,
        Err(TimedWaitError::TimedOut) => WaitOutcome::TimedOut,
    }
}

fn classify_wait(r: Result<(), WaitError>) -> (o: WaitOutcome)
    ensures
        o == outcome_of_wait(r),
{
    match r {
        Ok(()) => WaitOutcome::Woken,
        Err(WaitError::WrongValue) => WaitOutcome::WrongValue,
        Err(WaitError::Interrupted) => WaitOutcome::Interrupted,
    }
}

fn classify_timed_wait(r: Result<(), TimedWaitError>) -> (o: WaitOutcome)
    ensures
        o == outcome_of_timed_wait(r),
{
    match r {
        Ok(()) => WaitOutcome::Woken,
        Err(TimedWaitError::WrongValue) => WaitOutcome::WrongValue,
        Err(TimedWaitError::Interrupted) => WaitOutcome::Interrupted,
        Err(TimedWaitError::TimedOut) => WaitOutcome::TimedOut,
    }
}

/// The length of one kernel wait for a remaining budget of `timeout_ns`.
pub fn wait_slice(timeout_ns: u64) -> (r: u64)
    ensures
        r <= MAX_WAIT_NS,
        timeout_ns <= MAX_WAIT_NS ==> r == timeout_ns,
        timeout_ns > MAX_WAIT_NS ==> r == MAX_WAIT_NS,
{
    if timeout_ns <= MAX_WAIT_NS {
        timeout_ns
    } else {
        MAX_WAIT_NS
    }
}

/// Evidence that the caller holds the lock: made only by a compare-and-swap
/// that took it, and given up by `unlock`.
pub struct Held {
    taken: (),
}

/// The payload written into a freshly created region.
pub const INITIAL_NUMBER: i64 = 100;

/// A view of a region's header: the lock word at `LOCK_WORD_OFFSET` and the
/// payload at `PAYLOAD_OFFSET`. Both live in memory that other processes
/// share, so their values are observed, never known in advance.
pub struct SharedData<'a> {
    pub futex: &'a Futex<Shared>,
    pub number: &'a AtomicI64,
}

impl<'a> SharedData<'a> {
    /// Views the given lock word and payload as one header.
    pub fn new(futex: &'a Futex<Shared>, number: &'a AtomicI64) -> (r: Self)
        ensures
            r.futex == futex,
            r.number == number,
    {
        SharedData { futex, number }
    }

    /// Puts a freshly created header in its initial state: unlocked, with
    /// payload `INITIAL_NUMBER`. Only the creator calls this, once, before
    /// the region's identifier is published.
    pub fn initialize(&self) {
        word_of(self.futex).store(UNLOCKED, Ordering::SeqCst);
        self.number.store(INITIAL_NUMBER, Ordering::SeqCst);
    }

    /// Reads the payload. Meaningful as protected data only while the caller
    /// holds the lock; otherwise a diagnostic peek.
    pub fn get_number(&self) -> i64 {
        self.number.load(Ordering::SeqCst)
    }

    /// Writes the payload; only the lock holder can, as `held` shows.
    pub fn set_number(&self, held: &Held, value: i64) {
        let _ = held;
        self.number.store(value, Ordering::SeqCst);
    }

    /// Attempts the compare-and-swap from unlocked to locked, with acquire
    /// ordering on success; `Some` exactly when it succeeded, carrying the
    /// evidence of holding the lock. Never blocks.
    pub fn try_lock(&self) -> Option<Held> {
        match word_of(self.futex).compare_exchange(
            UNLOCKED,
            LOCKED,
            Ordering::Acquire,
            Ordering::Relaxed,
        ) {
            Ok(_) => Some(Held { taken: () }),
            Err(_) => None,
        }
    }

    /// Blocks while the word is locked, until a wake, a signal, or the end of
    /// `timeout_ns` nanoseconds (`None`: no deadline). A longer timeout than
    /// `MAX_WAIT_NS` waits `MAX_WAIT_NS` at most; that ends like an early
    /// wake, and the acquirer checks its budget again.
    pub fn wait_while_locked(&self, timeout_ns: Option<u64>) -> (r: WaitOutcome)
        ensures
            timeout_ns is None ==> r != WaitOutcome::TimedOut,
    {
        match timeout_ns {
            None => classify_wait(futex_wait(self.futex, LOCKED)),
            Some(t) => {
                let slice = wait_slice(t);
                classify_timed_wait(futex_wait_for(self.futex, LOCKED, slice))
            },
        }
    }

    /// Releases the lock: stores the unlocked value with release ordering,
    /// then wakes at most one blocked waiter. Only the holder can call this:
    /// it gives up the `Held` that its acquire returned.
    pub fn unlock(&self, held: Held) {
        let Held { taken: _ } = held;
        word_of(self.futex).store(UNLOCKED, Ordering::Release);
        let _ = futex_wake(self.futex, 1);
    }
}

} // verus!
