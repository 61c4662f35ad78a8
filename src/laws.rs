use vstd::prelude::*;

use crate::drain::{route_spec, WorkerEvent};
use crate::status::Status;
use crate::supervisor::{after_start, after_stop, SupervisorView};

verus! {

/// `n` start requests in a row, each spawn succeeding: the final state and the
/// status reported to each request, in order.
pub open spec fn repeat_start(v: SupervisorView, n: nat) -> (SupervisorView, Seq<Status>)
    decreases n,
{
    if n == 0 {
        (v, Seq::empty())
    } else {
        let (w, replies) = repeat_start(v, (n - 1) as nat);
        (after_start(w).0, replies.push(after_start(w).1))
    }
}

proof fn lemma_repeat_start_shape(v: SupervisorView, n: nat)
    ensures
        repeat_start(v, n).1.len() == n,
        n >= 1 ==> repeat_start(v, n).0.running,
        n >= 1 ==> repeat_start(v, n).0.spawns == v.spawns + if v.running { 0nat } else { 1nat },
        n >= 1 ==> repeat_start(v, n).1[0] == after_start(v).1,
        forall|i: int| 1 <= i < n ==> #[trigger] repeat_start(v, n).1[i] == Status::AlreadyRunning,
    decreases n,
{
    if n > 0 {
        lemma_repeat_start_shape(v, (n - 1) as nat);
    }
}

/// Repeated start requests on an idle supervisor, with no stop between them,
/// spawn one worker: the first is answered "started", every later one
/// "already running".
pub proof fn lemma_repeated_start_spawns_once(v: SupervisorView, n: nat)
    requires
        !v.running,
        n >= 1,
    ensures
        repeat_start(v, n).0.running,
        repeat_start(v, n).0.spawns == v.spawns + 1,
        repeat_start(v, n).1.len() == n,
        repeat_start(v, n).1[0] == Status::Started,
        forall|i: int| 1 <= i < n ==> #[trigger] repeat_start(v, n).1[i] == Status::AlreadyRunning,
{
    lemma_repeat_start_shape(v, n);
}

/// Start requests that arrive together are served one at a time under the
/// lock, in whatever order: from any state they leave exactly one worker in
/// the slot, spawn at most one, and at most one of them is answered "started".
pub proof fn lemma_concurrent_starts_one_worker(v: SupervisorView, n: nat)
    requires
        n >= 1,
    ensures
        repeat_start(v, n).0.running,
        v.spawns <= repeat_start(v, n).0.spawns <= v.spawns + 1,
        forall|i: int, j: int|
            0 <= i < n && 0 <= j < n && #[trigger] repeat_start(v, n).1[i] == Status::Started
                && #[trigger] repeat_start(v, n).1[j] == Status::Started ==> i == j,
{
    lemma_repeat_start_shape(v, n);
    assert forall|i: int, j: int|
        0 <= i < n && 0 <= j < n && #[trigger] repeat_start(v, n).1[i] == Status::Started
            && #[trigger] repeat_start(v, n).1[j] == Status::Started implies i == j by {
        if i != 0 {
            assert(repeat_start(v, n).1[i] == Status::AlreadyRunning);
        }
        if j != 0 {
            assert(repeat_start(v, n).1[j] == Status::AlreadyRunning);
        }
    }
}

/// A stop request on an idle supervisor is no error: it is answered "not
/// running" and the supervisor stays idle.
pub proof fn lemma_stop_when_idle(v: SupervisorView)
    requires
        !v.running,
    ensures
        after_stop(v).0 == v,
        after_stop(v).1 == Status::NotRunning,
{
}

/// Start, stop and start again on an idle supervisor spawn two workers, and
/// the second one is left running.
pub proof fn lemma_start_stop_start(v: SupervisorView)
    requires
        !v.running,
    ensures
        after_start(v).1 == Status::Started,
        after_stop(after_start(v).0).1 == Status::Stopped,
        after_start(after_stop(after_start(v).0).0).1 == Status::Started,
        after_start(after_stop(after_start(v).0).0).0.running,
        after_start(after_stop(after_start(v).0).0).0.spawns == v.spawns + 2,
{
}

/// A termination seen by the drain ends the drain and nothing else: the drain
/// does not touch the slot, so a running supervisor still answers a start with
/// "already running" and spawns nothing, and only a stop request empties it.
pub proof fn lemma_termination_keeps_slot(v: SupervisorView, e: WorkerEvent)
    requires
        v.running,
        e is Terminated,
    ensures
        route_spec(e).finished,
        after_start(v).0 == v,
        after_start(v).1 == Status::AlreadyRunning,
        !after_stop(v).0.running,
        after_stop(v).1 == Status::Stopped,
{
}

} // verus!
