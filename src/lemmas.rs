use vstd::prelude::*;
use crate::level::{accepts_spec, Edge, EdgeKind, Level};
use crate::wait::{
    armed_kind_spec, deliver_all, fast_path_spec, fires, fresh_spec, Action, Phase, PendingWait,
    WaitOp,
};

verus! {

/// A wait for low returns success at once, with no interrupt registered,
/// exactly when the pin is low; otherwise it arms exactly one falling-edge
/// interrupt. A wait for high is the same with high and a rising edge.
pub proof fn lemma_fast_path(level: Level)
    ensures
        (fresh_spec(WaitOp::Low).start_spec(level).1 == Action::Return(Ok(()))
            && fresh_spec(WaitOp::Low).start_spec(level).0.registrations == 0) <==> level
            == Level::Low,
        level != Level::Low ==> fresh_spec(WaitOp::Low).start_spec(level).1 == Action::Arm(
            EdgeKind::Falling,
        ) && fresh_spec(WaitOp::Low).start_spec(level).0.registrations == 1,
        (fresh_spec(WaitOp::High).start_spec(level).1 == Action::Return(Ok(()))
            && fresh_spec(WaitOp::High).start_spec(level).0.registrations == 0) <==> level
            == Level::High,
        level != Level::High ==> fresh_spec(WaitOp::High).start_spec(level).1 == Action::Arm(
            EdgeKind::Rising,
        ) && fresh_spec(WaitOp::High).start_spec(level).0.registrations == 1,
{
}

/// Delivering a sequence of edges keeps the call well formed, changes only
/// its phase and completion count, counts each completion once, and does
/// nothing at all unless the call is armed.
pub proof fn lemma_deliver_all(w: PendingWait, edges: Seq<Edge>)
    requires
        w.wf(),
    ensures
        deliver_all(w, edges).wf(),
        deliver_all(w, edges).op == w.op,
        deliver_all(w, edges).confirmed == w.confirmed,
        deliver_all(w, edges).registrations == w.registrations,
        deliver_all(w, edges).outcome == w.outcome,
        deliver_all(w, edges).completions == w.completions + fires(w, edges),
        w.phase != Phase::Armed ==> deliver_all(w, edges) == w && fires(w, edges) == 0,
        w.phase == Phase::Armed ==> deliver_all(w, edges).phase == Phase::Armed
            || deliver_all(w, edges).phase == Phase::Fired,
    decreases edges.len(),
{
    if edges.len() > 0 {
        lemma_deliver_all(w.deliver_spec(edges[0]).0, edges.drop_first());
    }
}

/// However many edges the callback delivers, a wait call completes at most
/// once, and once it has returned, deliveries change nothing.
pub proof fn lemma_at_most_once(w: PendingWait, edges: Seq<Edge>)
    requires
        w.wf(),
    ensures
        fires(w, edges) <= 1,
        deliver_all(w, edges).completions <= 1,
        w.phase == Phase::Returned ==> deliver_all(w, edges) == w,
{
    lemma_deliver_all(w, edges);
}

/// Where the callback of an armed call runs one or more times with a matching
/// edge, the call completes exactly once; the woken task then returns success
/// exactly once, and a later delivery has no effect.
pub proof fn lemma_single_fire(w: PendingWait, edges: Seq<Edge>, later: Edge)
    requires
        w.wf(),
        w.phase == Phase::Armed,
        w.confirmed,
        edges.len() >= 1,
        forall|i: int| 0 <= i < edges.len() ==> accepts_spec(armed_kind_spec(w.op), #[trigger] edges[i]),
    ensures
        fires(w, edges) == 1,
        deliver_all(w, edges).completions == 1,
        deliver_all(w, edges).phase == Phase::Fired,
        deliver_all(w, edges).wake_spec().1 == Action::Return(Ok(())),
        deliver_all(w, edges).wake_spec().0.phase == Phase::Returned,
        deliver_all(w, edges).wake_spec().0.deliver_spec(later).0 == deliver_all(w, edges).wake_spec().0,
        !deliver_all(w, edges).wake_spec().0.deliver_spec(later).1,
{
    let first = w.deliver_spec(edges[0]).0;
    assert(first.phase == Phase::Fired);
    lemma_deliver_all(first, edges.drop_first());
    lemma_deliver_all(w, edges);
}

/// A matching edge that arrives before the task suspends is not lost: while
/// the registration is still under way the call returns success as soon as it
/// reports, and once registered the next wake returns success.
pub proof fn lemma_no_missed_wakeup(op: WaitOp, level: Level, edge: Edge)
    requires
        !fast_path_spec(op, level),
        accepts_spec(armed_kind_spec(op), edge),
    ensures
        fresh_spec(op).start_spec(level).0.deliver_spec(edge).1,
        fresh_spec(op).start_spec(level).0.deliver_spec(edge).0.registered_spec(true).1
            == Action::Return(Ok(())),
        fresh_spec(op).start_spec(level).0.registered_spec(true).1 == Action::Suspend,
        fresh_spec(op).start_spec(level).0.registered_spec(true).0.deliver_spec(edge).0.wake_spec().1
            == Action::Return(Ok(())),
{
}

/// An armed wait for a rising edge completes only on a rising delivery, one
/// for a falling edge only on a falling delivery, one for any edge on either;
/// a delivery that does not complete the wait leaves it unchanged.
pub proof fn lemma_edge_kind_selection(w: PendingWait, edge: Edge)
    requires
        w.wf(),
        w.phase == Phase::Armed,
    ensures
        w.op == WaitOp::RisingEdge ==> (w.deliver_spec(edge).1 <==> edge == Edge::Rising),
        w.op == WaitOp::FallingEdge ==> (w.deliver_spec(edge).1 <==> edge == Edge::Falling),
        w.op == WaitOp::AnyEdge ==> w.deliver_spec(edge).1,
        !w.deliver_spec(edge).1 ==> w.deliver_spec(edge).0 == w,
        w.deliver_spec(edge).1 ==> w.deliver_spec(edge).0.phase == Phase::Fired,
{
}

} // verus!
