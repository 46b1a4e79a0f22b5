use vstd::prelude::*;

verus! {

// Serving is bracketed by one boolean, `stopped`, shared under a mutex between the
// thread that owns the runtime (it waits) and the request handlers (one of
// them signals the stop). It starts out `true`: not serving yet.

/// The value of `stopped` before serving begins.
pub const INITIAL_STOPPED: bool = true;

/// Serving begins: `stopped` goes from true to false.
pub fn mark_serving(stopped: &mut bool)
    requires
        *old(stopped),
    ensures
        !*final(stopped),
{
    *stopped = false;
}

/// Serving ends: `stopped` becomes true, after which every waiter may leave.
pub fn mark_stopped(stopped: &mut bool)
    ensures
        *final(stopped),
{
    *stopped = true;
}

/// The waiter's loop condition, tested on each wake-up, spurious or not: it
/// goes on waiting as long as `stopped` says that serving has not ended.
pub fn must_keep_waiting(stopped: bool) -> (r: bool)
    ensures
        r == !stopped,
{
    !stopped
}

/// A change made to `stopped`.
#[derive(Clone, Copy, Debug, PartialEq, Eq, Structural)]
pub enum LifecycleOp {
    MarkServing,
    MarkStopped,
}

/// The value of `stopped` after `ops` have been applied to it in order.
pub open spec fn stopped_after(stopped: bool, ops: Seq<LifecycleOp>) -> bool
    decreases ops.len(),
{
    if ops.len() == 0 {
        stopped
    } else {
        stopped_after(ops[0] == LifecycleOp::MarkStopped, ops.drop_first())
    }
}

/// Serving begins once: once it has begun, the waiter keeps waiting exactly
/// until some stop has been marked. It cannot leave before a stop, and it
/// leaves on the first wake-up after one.
pub proof fn lemma_waiter_leaves_exactly_after_stop(ops: Seq<LifecycleOp>)
    requires
        forall|k: int| 0 <= k < ops.len() ==> ops[k] != LifecycleOp::MarkServing,
    ensures
        stopped_after(INITIAL_STOPPED, seq![LifecycleOp::MarkServing] + ops) == (ops.len() > 0),
        stopped_after(INITIAL_STOPPED, seq![LifecycleOp::MarkServing] + ops) == ops.contains(
            LifecycleOp::MarkStopped,
        ),
{
    assert((seq![LifecycleOp::MarkServing] + ops).drop_first() =~= ops);
    lemma_stopped_after_stops(ops);
    if ops.len() > 0 {
        assert(ops.contains(LifecycleOp::MarkStopped)) by {
            assert(ops[0] == LifecycleOp::MarkStopped);
        };
    }
}

proof fn lemma_stopped_after_stops(ops: Seq<LifecycleOp>)
    requires
        forall|k: int| 0 <= k < ops.len() ==> ops[k] != LifecycleOp::MarkServing,
    ensures
        stopped_after(false, ops) == (ops.len() > 0),
    decreases ops.len(),
{
    if ops.len() > 0 {
        lemma_stopped_after_stops_from_true(ops.drop_first());
    }
}

proof fn lemma_stopped_after_stops_from_true(ops: Seq<LifecycleOp>)
    requires
        forall|k: int| 0 <= k < ops.len() ==> ops[k] != LifecycleOp::MarkServing,
    ensures
        stopped_after(true, ops),
    decreases ops.len(),
{
    if ops.len() > 0 {
        lemma_stopped_after_stops_from_true(ops.drop_first());
    }
}

} // verus!
