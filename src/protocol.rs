use vstd::prelude::*;

verus! {

/// Sentinel value of the allocation counter while an exclusive-access attempt
/// holds it; never a real count.
pub const LOCKED: usize = usize::MAX;

/// Largest count from which a clone may increment. A larger one is fatal to
/// the protocol (it would come close to wrapping), so the clone operations
/// require the count to stay within it.
pub const MAX_REFS: usize = usize::MAX / 2;

/// Abstract state of one shared allocation record.
pub struct ArcView<T> {
    /// Number of live strong handles.
    pub strong: nat,
    /// Number of live weak handles, plus one while any strong handle lives.
    pub alloc: nat,
    /// The payload slot.
    pub payload: Option<T>,
    /// How many times the payload has been destroyed.
    pub destroyed: nat,
    /// How many times the allocation has been freed.
    pub freed: nat,
}

/// One linearised step on a record, as performed by the holder of a handle.
pub enum Op {
    CloneStrong,
    DropStrong,
    Downgrade,
    CloneWeak,
    DropWeak,
    Upgrade,
    GetMut,
}

/// The state right after construction with `value`.
pub open spec fn fresh<T>(value: T) -> ArcView<T> {
    ArcView { strong: 1, alloc: 1, payload: Some(value), destroyed: 0, freed: 0 }
}

/// Number of live weak handles: the allocation count without the unit that
/// the strong handles hold as a group.
pub open spec fn weak_handles<T>(v: ArcView<T>) -> int {
    v.alloc - (if v.strong > 0 { 1int } else { 0int })
}

/// The consistency of the counters, the slot and the history.
pub open spec fn consistent<T>(v: ArcView<T>) -> bool {
    &&& v.strong > 0 ==> v.alloc >= 1 && v.payload is Some
    &&& v.strong == 0 ==> v.payload is None
    &&& v.destroyed == (if v.strong == 0 { 1nat } else { 0nat })
    &&& v.freed == (if v.alloc == 0 { 1nat } else { 0nat })
    &&& v.alloc < LOCKED
}

/// Whether a holder of the right handle may take `op` in state `v` without
/// the process being aborted or a counter wrapping.
pub open spec fn enabled<T>(v: ArcView<T>, op: Op) -> bool {
    match op {
        Op::CloneStrong => 1 <= v.strong <= MAX_REFS,
        Op::DropStrong => v.strong >= 1,
        Op::Downgrade => v.strong >= 1 && v.alloc + 1 < LOCKED,
        Op::CloneWeak => weak_handles(v) >= 1 && v.alloc <= MAX_REFS,
        Op::DropWeak => weak_handles(v) >= 1,
        Op::Upgrade => weak_handles(v) >= 1 && v.strong + 1 < LOCKED,
        Op::GetMut => v.strong >= 1,
    }
}

/// Releasing one unit of the allocation count; the last one frees it.
pub open spec fn release_alloc<T>(v: ArcView<T>) -> ArcView<T> {
    ArcView {
        alloc: (v.alloc - 1) as nat,
        freed: if v.alloc == 1 { v.freed + 1 } else { v.freed },
        ..v
    }
}

/// The effect of `op` on the counters and the slot.
pub open spec fn step<T>(v: ArcView<T>, op: Op) -> ArcView<T> {
    match op {
        Op::CloneStrong => ArcView { strong: v.strong + 1, ..v },
        Op::DropStrong => if v.strong == 1 {
            release_alloc(ArcView { strong: 0, payload: None, destroyed: v.destroyed + 1, ..v })
        } else {
            ArcView { strong: (v.strong - 1) as nat, ..v }
        },
        Op::Downgrade => ArcView { alloc: v.alloc + 1, ..v },
        Op::CloneWeak => ArcView { alloc: v.alloc + 1, ..v },
        Op::DropWeak => release_alloc(v),
        Op::Upgrade => if v.strong == 0 {
            v
        } else {
            ArcView { strong: v.strong + 1, ..v }
        },
        Op::GetMut => v,
    }
}

/// The state after taking `ops` in order from `v`.
pub open spec fn run<T>(v: ArcView<T>, ops: Seq<Op>) -> ArcView<T>
    decreases ops.len(),
{
    if ops.len() == 0 {
        v
    } else {
        step(run(v, ops.drop_last()), ops.last())
    }
}

/// Whether every step of `ops` is enabled in the state it is taken in.
pub open spec fn runnable<T>(v: ArcView<T>, ops: Seq<Op>) -> bool
    decreases ops.len(),
{
    if ops.len() == 0 {
        true
    } else {
        runnable(v, ops.drop_last()) && enabled(run(v, ops.drop_last()), ops.last())
    }
}

proof fn lemma_step_consistent<T>(v: ArcView<T>, op: Op)
    requires
        consistent(v),
        enabled(v, op),
    ensures
        consistent(step(v, op)),
        step(v, op).destroyed >= v.destroyed,
        step(v, op).freed >= v.freed,
        v.strong == 0 ==> step(v, op).strong == 0,
        v.alloc == 0 ==> step(v, op).alloc == 0,
{
}

proof fn lemma_run_consistent<T>(v: ArcView<T>, ops: Seq<Op>)
    requires
        consistent(v),
        runnable(v, ops),
    ensures
        consistent(run(v, ops)),
        forall|i: int|
            0 <= i <= ops.len() ==> {
                &&& (#[trigger] run(v, ops.take(i))).destroyed <= run(v, ops).destroyed
                &&& run(v, ops.take(i)).freed <= run(v, ops).freed
                &&& run(v, ops.take(i)).strong == 0 ==> run(v, ops).strong == 0
                &&& run(v, ops.take(i)).alloc == 0 ==> run(v, ops).alloc == 0
            },
    decreases ops.len(),
{
    if ops.len() == 0 {
        assert forall|i: int| 0 <= i <= ops.len() implies ops.take(i) =~= ops by {}
    } else {
        let pre = ops.drop_last();
        lemma_run_consistent(v, pre);
        lemma_step_consistent(run(v, pre), ops.last());
        assert forall|i: int| 0 <= i <= ops.len() implies {
            &&& (#[trigger] run(v, ops.take(i))).destroyed <= run(v, ops).destroyed
            &&& run(v, ops.take(i)).freed <= run(v, ops).freed
            &&& run(v, ops.take(i)).strong == 0 ==> run(v, ops).strong == 0
            &&& run(v, ops.take(i)).alloc == 0 ==> run(v, ops).alloc == 0
        } by {
            if i == ops.len() {
                assert(ops.take(i) =~= ops);
            } else {
                assert(ops.take(i) =~= pre.take(i));
            }
        }
    }
}

/// Whatever steps the handle holders take, in whatever order, the payload is
/// destroyed at most once; it has been destroyed exactly when no strong handle
/// is left, and from then on the slot stays empty and the count stays zero.
pub proof fn lemma_payload_destroyed_once<T>(value: T, ops: Seq<Op>)
    requires
        runnable(fresh(value), ops),
    ensures
        run(fresh(value), ops).destroyed <= 1,
        run(fresh(value), ops).destroyed == 1 <==> run(fresh(value), ops).strong == 0,
        run(fresh(value), ops).destroyed == 1 ==> run(fresh(value), ops).payload is None,
        forall|i: int|
            0 <= i <= ops.len() ==> (#[trigger] run(fresh(value), ops.take(i))).destroyed <= run(
                fresh(value),
                ops,
            ).destroyed,
        forall|i: int|
            0 <= i <= ops.len() && (#[trigger] run(fresh(value), ops.take(i))).strong == 0 ==> run(
                fresh(value),
                ops,
            ).strong == 0,
{
    lemma_run_consistent(fresh(value), ops);
}

/// Whatever steps the handle holders take, the allocation is freed at most
/// once, exactly when neither a strong nor a weak handle (nor the strong
/// handles' shared unit) is left, and never before the payload is destroyed.
pub proof fn lemma_allocation_freed_once<T>(value: T, ops: Seq<Op>)
    requires
        runnable(fresh(value), ops),
    ensures
        run(fresh(value), ops).freed <= 1,
        run(fresh(value), ops).freed == 1 <==> (run(fresh(value), ops).strong == 0
            && weak_handles(run(fresh(value), ops)) == 0),
        run(fresh(value), ops).freed == 1 ==> run(fresh(value), ops).destroyed == 1,
        forall|i: int|
            0 <= i <= ops.len() ==> (#[trigger] run(fresh(value), ops.take(i))).freed <= run(
                fresh(value),
                ops,
            ).freed,
{
    lemma_run_consistent(fresh(value), ops);
}

/// Downgrading a live strong handle and upgrading the new weak handle at once
/// succeeds and leaves the payload as it was.
pub proof fn lemma_downgrade_then_upgrade<T>(v: ArcView<T>)
    requires
        consistent(v),
        enabled(v, Op::Downgrade),
        v.strong + 1 < LOCKED,
    ensures
        enabled(step(v, Op::Downgrade), Op::Upgrade),
        step(step(v, Op::Downgrade), Op::Upgrade).strong == v.strong + 1,
        step(step(v, Op::Downgrade), Op::Upgrade).alloc == v.alloc + 1,
        step(step(v, Op::Downgrade), Op::Upgrade).payload == v.payload,
{
}

} // verus!
