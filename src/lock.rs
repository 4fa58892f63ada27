//! The lock protocol: the values of the lock word, a model of the shared
//! state that the protocol moves through, and the decision that a blocked
//! acquirer makes after each thing it learns.
use vstd::prelude::*;

verus! {

/// Lock word value while nobody holds the lock.
pub const UNLOCKED: u32 = 0;

/// Lock word value while some participant holds the lock.
pub const LOCKED: u32 = 1;

/// Why an acquire gave up without taking the lock.
#[derive(Clone, Copy, Debug, PartialEq, Eq, Structural)]
pub enum AcquireError {
    /// The time budget ran out while the lock stayed held.
    TimedOut,
    /// A signal cut a kernel wait short.
    Interrupted,
}

/// How a kernel wait on the lock word ended.
#[derive(Clone, Copy, Debug, PartialEq, Eq, Structural)]
pub enum WaitOutcome {
    /// A wake arrived; it is a hint only.
    Woken,
    /// The word no longer held the locked value, so the wait did not sleep.
    WrongValue,
    /// The wait's own deadline passed.
    TimedOut,
    /// A signal interrupted the wait.
    Interrupted,
}

/// What an acquirer has just learned.
#[derive(Clone, Copy, Debug, PartialEq, Eq, Structural)]
pub enum AcquireEvent {
    /// The acquire began. The first compare-and-swap comes before any look
    /// at the clock, so a free lock is taken whatever the budget.
    Started,
    /// A compare-and-swap from unlocked to locked was tried; `won` tells
    /// whether it succeeded, `elapsed_ns` is read after it.
    Attempted { won: bool, elapsed_ns: u64 },
    /// A kernel wait returned with `outcome`; `elapsed_ns` is read after it.
    Waited { outcome: WaitOutcome, elapsed_ns: u64 },
}

/// What the acquirer does next.
#[derive(Clone, Copy, Debug, PartialEq, Eq, Structural)]
pub enum AcquireStep {
    /// Try the compare-and-swap from unlocked to locked.
    Attempt,
    /// Block while the word is locked, for at most the given nanoseconds
    /// (`None`: without a deadline).
    Wait(Option<u64>),
    /// The lock is held by the caller.
    Acquired,
    /// Give up.
    Failed(AcquireError),
}

/// Whether `elapsed_ns` has used up the budget `timeout_ns` (`None`: no budget).
pub open spec fn expired(timeout_ns: Option<u64>, elapsed_ns: u64) -> bool {
    match timeout_ns {
        Some(t) => elapsed_ns >= t,
        None => false,
    }
}

/// The step that follows `event` for an acquire whose budget, counted from
/// its start, is `timeout_ns`.
pub open spec fn spec_next_step(timeout_ns: Option<u64>, event: AcquireEvent) -> AcquireStep {
    match event {
        AcquireEvent::Started => AcquireStep::Attempt,
        AcquireEvent::Attempted { won, elapsed_ns } => {
            if won {
                AcquireStep::Acquired
            } else {
                match timeout_ns {
                    None => AcquireStep::Wait(None),
                    Some(t) => {
                        if elapsed_ns >= t {
                            AcquireStep::Failed(AcquireError::TimedOut)
                        } else {
                            AcquireStep::Wait(Some((t - elapsed_ns) as u64))
                        }
                    },
                }
            }
        },
        AcquireEvent::Waited { outcome, elapsed_ns } => {
            if outcome == WaitOutcome::Interrupted {
                AcquireStep::Failed(AcquireError::Interrupted)
            } else if expired(timeout_ns, elapsed_ns) {
                AcquireStep::Failed(AcquireError::TimedOut)
            } else {
                AcquireStep::Attempt
            }
        },
    }
}

/// Decides what an acquirer does after `event`. A wake, a changed word and
/// an expired kernel wait all lead back to a fresh attempt unless the budget
/// is spent; the budget is wall-clock time since the start, never reset.
pub fn next_step(timeout_ns: Option<u64>, event: AcquireEvent) -> (r: AcquireStep)
    ensures
        r == spec_next_step(timeout_ns, event),
{
    match event {
        AcquireEvent::Started => AcquireStep::Attempt,
        AcquireEvent::Attempted { won, elapsed_ns } => {
            if won {
                AcquireStep::Acquired
            } else {
                match timeout_ns {
                    None => AcquireStep::Wait(None),
                    Some(t) => {
                        if elapsed_ns >= t {
                            AcquireStep::Failed(AcquireError::TimedOut)
                        } else {
                            AcquireStep::Wait(Some(t - elapsed_ns))
                        }
                    },
                }
            }
        },
        AcquireEvent::Waited { outcome, elapsed_ns } => {
            let spent = match timeout_ns {
                Some(t) => elapsed_ns >= t,
                None => false,
            };
            match outcome {
                WaitOutcome::Interrupted => AcquireStep::Failed(AcquireError::Interrupted),
                _ => {
                    if spent {
                        AcquireStep::Failed(AcquireError::TimedOut)
                    } else {
                        AcquireStep::Attempt
                    }
                },
            }
        },
    }
}

/// What an acquirer that probes the lock with a non-blocking attempt and
/// sleeps a fixed interval between probes does after a probe.
#[derive(Clone, Copy, Debug, PartialEq, Eq, Structural)]
pub enum PollStep {
    /// The probe took the lock.
    Acquired,
    /// Sleep one interval, then probe again.
    Sleep,
    /// Give up.
    TimedOut,
}

/// After a probe that `won` or not, with `sleeps` intervals of
/// `interval_ms` already slept: time out once the slept time reaches
/// `timeout_ms`.
pub open spec fn spec_poll_step(won: bool, sleeps: nat, interval_ms: nat, timeout_ms: nat) -> PollStep {
    if won {
        PollStep::Acquired
    } else if sleeps * interval_ms >= timeout_ms {
        PollStep::TimedOut
    } else {
        PollStep::Sleep
    }
}

/// Decides the next move of a polling acquirer.
pub fn poll_step(won: bool, sleeps: u64, interval_ms: u64, timeout_ms: u64) -> (r: PollStep)
    ensures
        r == spec_poll_step(won, sleeps as nat, interval_ms as nat, timeout_ms as nat),
{
    if won {
        PollStep::Acquired
    } else {
        assert(sleeps * interval_ms <= 0xffff_ffff_ffff_ffffnat * 0xffff_ffff_ffff_ffffnat)
            by (nonlinear_arith)
            requires
                sleeps <= 0xffff_ffff_ffff_ffffnat,
                interval_ms <= 0xffff_ffff_ffff_ffffnat,
        ;
        let slept: u128 = (sleeps as u128) * (interval_ms as u128);
        if slept >= timeout_ms as u128 {
            PollStep::TimedOut
        } else {
            PollStep::Sleep
        }
    }
}

/// Bounded wait of the polling acquirer: it only sleeps while the time
/// slept is under the budget, so it never sleeps more than one interval
/// past it; and with a positive interval it has timed out by the time it
/// has slept `timeout_ms / interval_ms + 1` intervals.
pub proof fn lemma_poll_bounded(sleeps: nat, interval_ms: nat, timeout_ms: nat)
    requires
        interval_ms > 0,
    ensures
        spec_poll_step(false, sleeps, interval_ms, timeout_ms) == PollStep::Sleep ==> (sleeps + 1)
            * interval_ms < timeout_ms + interval_ms,
        sleeps >= timeout_ms / interval_ms + 1 ==> spec_poll_step(
            false,
            sleeps,
            interval_ms,
            timeout_ms,
        ) == PollStep::TimedOut,
{
    assert((sleeps + 1) * interval_ms == sleeps * interval_ms + interval_ms) by (nonlinear_arith);
    if sleeps >= timeout_ms / interval_ms + 1 {
        let q = timeout_ms / interval_ms;
        assert(timeout_ms < (q + 1) * interval_ms) by (nonlinear_arith)
            requires
                q == timeout_ms / interval_ms,
                interval_ms > 0,
        ;
        assert((q + 1) * interval_ms <= sleeps * interval_ms) by (nonlinear_arith)
            requires
                q + 1 <= sleeps,
                interval_ms > 0,
        ;
    }
}

/// The two participants of the protocol.
#[derive(Clone, Copy, Debug, PartialEq, Eq, Structural)]
pub enum Participant {
    /// Allocates the region, initialises it and finally tears it down.
    Creator,
    /// Opens the region by its identifier.
    Opener,
}

/// The shared state as the protocol sees it: the lock word, who holds the
/// lock, the payload, and the payload as the last release left it.
pub struct LockModel {
    pub word: u32,
    pub holder: Option<Participant>,
    pub payload: i64,
    pub published: i64,
}

/// One operation of a participant on the shared state.
pub enum LockOp {
    /// Compare-and-swap of the word from unlocked to locked.
    TryAcquire(Participant),
    /// Store of the unlocked value, then a wake.
    Release(Participant),
    /// Store of a new payload.
    Write(Participant, i64),
}

/// A freshly created region whose payload was initialised to `payload`.
pub open spec fn fresh(payload: i64) -> LockModel {
    LockModel { word: UNLOCKED, holder: None, payload, published: payload }
}

/// The invariant of every reachable state: the word is one of its two
/// values, it is locked exactly when someone holds the lock, and while
/// nobody does the payload is what the last release left.
pub open spec fn wf(m: LockModel) -> bool {
    &&& (m.word == UNLOCKED || m.word == LOCKED)
    &&& (m.word == UNLOCKED <==> m.holder is None)
    &&& (m.holder is None ==> m.payload == m.published)
}

/// The compare-and-swap: the new state, and whether `p` now holds the lock.
pub open spec fn try_acquire(m: LockModel, p: Participant) -> (LockModel, bool) {
    if m.word == UNLOCKED {
        (LockModel { word: LOCKED, holder: Some(p), payload: m.payload, published: m.published }, true)
    } else {
        (m, false)
    }
}

/// Release by the holder: the word is unlocked and the payload published.
pub open spec fn release(m: LockModel) -> LockModel {
    LockModel { word: UNLOCKED, holder: None, payload: m.payload, published: m.payload }
}

/// Only the holder may release or write; anyone may attempt.
pub open spec fn permitted(m: LockModel, op: LockOp) -> bool {
    match op {
        LockOp::TryAcquire(_) => true,
        LockOp::Release(p) => m.holder == Some(p),
        LockOp::Write(p, _) => m.holder == Some(p),
    }
}

/// The state after one operation.
pub open spec fn apply(m: LockModel, op: LockOp) -> LockModel {
    match op {
        LockOp::TryAcquire(p) => try_acquire(m, p).0,
        LockOp::Release(_) => release(m),
        LockOp::Write(_, v) => LockModel { payload: v, ..m },
    }
}

/// The state after `ops`, applied in order from `m`.
pub open spec fn run(m: LockModel, ops: Seq<LockOp>) -> LockModel
    decreases ops.len(),
{
    if ops.len() == 0 {
        m
    } else {
        apply(run(m, ops.drop_last()), ops.last())
    }
}

/// Whether every operation of `ops` is permitted where it is applied.
pub open spec fn legal(m: LockModel, ops: Seq<LockOp>) -> bool
    decreases ops.len(),
{
    if ops.len() == 0 {
        true
    } else {
        legal(m, ops.drop_last()) && permitted(run(m, ops.drop_last()), ops.last())
    }
}

/// A permitted operation keeps the invariant.
pub proof fn lemma_step_keeps_wf(m: LockModel, op: LockOp)
    requires
        wf(m),
        permitted(m, op),
    ensures
        wf(apply(m, op)),
{
}

/// Every state that legal operations reach from a well-formed one is
/// well-formed.
pub proof fn lemma_run_keeps_wf(m: LockModel, ops: Seq<LockOp>)
    requires
        wf(m),
        legal(m, ops),
    ensures
        wf(run(m, ops)),
    decreases ops.len(),
{
    if ops.len() > 0 {
        lemma_run_keeps_wf(m, ops.drop_last());
        lemma_step_keeps_wf(run(m, ops.drop_last()), ops.last());
    }
}

/// Mutual exclusion: in any state that legal operations reach, while one
/// participant holds the lock another one's attempt fails and changes
/// nothing, so two holding intervals never overlap.
pub proof fn lemma_mutual_exclusion(m: LockModel, ops: Seq<LockOp>, p: Participant, q: Participant)
    requires
        wf(m),
        legal(m, ops),
        run(m, ops).holder == Some(p),
        q != p,
    ensures
        !try_acquire(run(m, ops), q).1,
        try_acquire(run(m, ops), q).0 == run(m, ops),
{
    lemma_run_keeps_wf(m, ops);
}

/// Read-after-acquire consistency: in any reachable state, a successful
/// attempt sees as payload exactly what the previous release left.
pub proof fn lemma_read_after_acquire(m: LockModel, ops: Seq<LockOp>, p: Participant)
    requires
        wf(m),
        legal(m, ops),
        try_acquire(run(m, ops), p).1,
    ensures
        try_acquire(run(m, ops), p).0.payload == run(m, ops).published,
        try_acquire(run(m, ops), p).0.holder == Some(p),
{
    lemma_run_keeps_wf(m, ops);
}

/// Initial state: a fresh region is well-formed, and whoever acquires it
/// first reads the payload it was initialised with.
pub proof fn lemma_fresh_read(payload: i64, p: Participant)
    ensures
        wf(fresh(payload)),
        try_acquire(fresh(payload), p).1,
        try_acquire(fresh(payload), p).0.payload == payload,
{
}

/// Timeout correctness: while the lock stays held every attempt fails, so no
/// step of the acquirer is `Acquired`; once the budget is spent, a lost
/// attempt and every wait but an interrupted one lead to `TimedOut`. A failed attempt on a held
/// lock leaves the shared state as it was.
pub proof fn lemma_held_lock_times_out(
    m: LockModel,
    p: Participant,
    timeout_ns: u64,
    event: AcquireEvent,
)
    requires
        wf(m),
        m.holder is Some,
        event is Attempted ==> !event->won,
    ensures
        !try_acquire(m, p).1,
        try_acquire(m, p).0 == m,
        spec_next_step(Some(timeout_ns), event) != AcquireStep::Acquired,
        (match event {
            AcquireEvent::Started => false,
            AcquireEvent::Attempted { won, elapsed_ns } => elapsed_ns >= timeout_ns,
            AcquireEvent::Waited { outcome, elapsed_ns } => elapsed_ns >= timeout_ns && outcome
                != WaitOutcome::Interrupted,
        }) ==> spec_next_step(Some(timeout_ns), event) == AcquireStep::Failed(
            AcquireError::TimedOut,
        ),
{
}

/// An acquire always begins with an attempt, with any budget, zero
/// included, so a free lock is taken at once without a kernel wait.
pub proof fn lemma_start_attempts(timeout_ns: Option<u64>)
    ensures
        spec_next_step(timeout_ns, AcquireEvent::Started) == AcquireStep::Attempt,
        spec_next_step(timeout_ns, AcquireEvent::Attempted { won: true, elapsed_ns: 0 })
            == AcquireStep::Acquired,
{
}

/// Progress after a release: a wait that returns for any reason but a
/// signal, with budget left, leads to a new attempt; an attempt that finds
/// the word unlocked takes the lock whatever the clock says; and a failed
/// attempt with budget left waits for no longer than the budget that is left.
pub proof fn lemma_release_leads_to_attempt(
    timeout_ns: Option<u64>,
    outcome: WaitOutcome,
    elapsed_ns: u64,
)
    requires
        !expired(timeout_ns, elapsed_ns),
        outcome != WaitOutcome::Interrupted,
    ensures
        spec_next_step(timeout_ns, AcquireEvent::Waited { outcome, elapsed_ns })
            == AcquireStep::Attempt,
        spec_next_step(timeout_ns, AcquireEvent::Attempted { won: true, elapsed_ns })
            == AcquireStep::Acquired,
        match spec_next_step(timeout_ns, AcquireEvent::Attempted { won: false, elapsed_ns }) {
            AcquireStep::Wait(Some(d)) => timeout_ns is Some && d > 0 && elapsed_ns + d
                == timeout_ns->0,
            AcquireStep::Wait(None) => timeout_ns is None,
            _ => false,
        },
{
}

} // verus!
