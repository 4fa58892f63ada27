//! The two-phase use of the lock: the opener updates the payload under the
//! lock, then the creator does, each as one read-modify-write.
use crate::lock::{
    fresh, legal, run, wf, LockOp, Participant, lemma_run_keeps_wf,
};
use vstd::prelude::*;

verus! {

/// Budget the opener gives its acquire, in seconds.
pub const OPENER_TIMEOUT_SECS: u64 = 10;

/// Budget the creator gives each of its acquires, in seconds.
pub const CREATOR_TIMEOUT_SECS: u64 = 5;

/// Nanoseconds in one second.
pub const NANOS_PER_SEC: u64 = 1_000_000_000;

/// The opener's new payload, as an unbounded integer.
pub open spec fn opener_value(n: int) -> int {
    (n + 25) * 2
}

/// The creator's final payload, as an unbounded integer.
pub open spec fn creator_value(n: int) -> int {
    n * 3 + 50
}

/// Whether `x` is representable as an `i64`.
pub open spec fn fits_i64(x: int) -> bool {
    i64::MIN <= x <= i64::MAX
}

/// The opener's update of the payload, `(n + 25) * 2`; `None` where the
/// result does not fit in an `i64`.
pub fn opener_update(n: i64) -> (r: Option<i64>)
    ensures
        fits_i64(opener_value(n as int)) ==> r == Some(opener_value(n as int) as i64),
        !fits_i64(opener_value(n as int)) ==> r is None,
{
    let wide: i128 = (n as i128 + 25) * 2;
    if i64::MIN as i128 <= wide && wide <= i64::MAX as i128 {
        Some(wide as i64)
    } else {
        None
    }
}

/// The creator's final update of the payload, `n * 3 + 50`; `None` where the
/// result does not fit in an `i64`.
pub fn creator_update(n: i64) -> (r: Option<i64>)
    ensures
        fits_i64(creator_value(n as int)) ==> r == Some(creator_value(n as int) as i64),
        !fits_i64(creator_value(n as int)) ==> r is None,
{
    let wide: i128 = (n as i128) * 3 + 50;
    if i64::MIN as i128 <= wide && wide <= i64::MAX as i128 {
        Some(wide as i64)
    } else {
        None
    }
}

/// A budget of `secs` seconds in nanoseconds; `None` where that overflows.
pub fn secs_to_ns(secs: u64) -> (r: Option<u64>)
    ensures
        secs * NANOS_PER_SEC <= u64::MAX ==> r == Some((secs * NANOS_PER_SEC) as u64),
        secs * NANOS_PER_SEC > u64::MAX ==> r is None,
{
    secs.checked_mul(NANOS_PER_SEC)
}

/// The operations of one run of the protocol in which every attempt
/// succeeds: the creator takes the lock and lets it go, the opener takes
/// it, writes `a` and lets it go, then the creator takes it, writes `b` and
/// lets it go.
pub open spec fn protocol_ops(a: i64, b: i64) -> Seq<LockOp> {
    seq![
        LockOp::TryAcquire(Participant::Creator),
        LockOp::Release(Participant::Creator),
        LockOp::TryAcquire(Participant::Opener),
        LockOp::Write(Participant::Opener, a),
        LockOp::Release(Participant::Opener),
        LockOp::TryAcquire(Participant::Creator),
        LockOp::Write(Participant::Creator, b),
        LockOp::Release(Participant::Creator),
    ]
}

/// The protocol on a fresh region is legal, ends unlocked with the
/// creator's value published, and each participant reads, right after its
/// acquire, what the previous holder released: the opener the initial
/// payload, the creator the opener's value.
pub proof fn lemma_protocol_run(initial: i64, a: i64, b: i64)
    ensures
        legal(fresh(initial), protocol_ops(a, b)),
        wf(run(fresh(initial), protocol_ops(a, b))),
        run(fresh(initial), protocol_ops(a, b)).holder is None,
        run(fresh(initial), protocol_ops(a, b)).published == b,
        run(fresh(initial), protocol_ops(a, b).take(3)).payload == initial,
        run(fresh(initial), protocol_ops(a, b).take(6)).payload == a,
{
    let ops = protocol_ops(a, b);
    let m = fresh(initial);
    reveal_with_fuel(run, 9);
    reveal_with_fuel(legal, 9);
    assert(ops.take(3).drop_last() =~= ops.take(2));
    assert(ops.take(2).drop_last() =~= ops.take(1));
    assert(ops.take(1).drop_last() =~= ops.take(0));
    assert(ops.take(6).drop_last() =~= ops.take(5));
    assert(ops.take(5).drop_last() =~= ops.take(4));
    assert(ops.take(4).drop_last() =~= ops.take(3));
    assert(ops.take(7).drop_last() =~= ops.take(6));
    assert(ops.take(8).drop_last() =~= ops.take(7));
    assert(ops =~= ops.take(8));
    assert(run(m, ops.take(3)).payload == initial);
    assert(run(m, ops.take(6)).payload == a);
    assert(legal(m, ops.take(8)));
    lemma_run_keeps_wf(m, ops);
}

} // verus!
