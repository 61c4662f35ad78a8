use vstd::prelude::*;

use crate::status::{SpawnFailure, Status, SupervisorError};

verus! {

/// What a supervisor is, seen from outside: whether its slot holds a worker,
/// and how many workers it has taken into the slot since it was made.
pub ghost struct SupervisorView {
    pub running: bool,
    pub spawns: nat,
}

/// A start request, with the spawn succeeding where one is needed: the next
/// state and the reported status.
pub open spec fn after_start(v: SupervisorView) -> (SupervisorView, Status) {
    if v.running {
        (v, Status::AlreadyRunning)
    } else {
        (SupervisorView { running: true, spawns: v.spawns + 1 }, Status::Started)
    }
}

/// A stop request, with the kill succeeding where one is needed: the next
/// state and the reported status.
pub open spec fn after_stop(v: SupervisorView) -> (SupervisorView, Status) {
    (
        SupervisorView { running: false, spawns: v.spawns },
        if v.running {
            Status::Stopped
        } else {
            Status::NotRunning
        },
    )
}

/// The first half of a start request: report, or go and spawn a worker.
#[derive(Clone, Copy, Debug, PartialEq, Eq, Structural)]
pub enum StartStep {
    /// Nothing to spawn; this status is the answer.
    Report(Status),
    /// The slot is empty: spawn the worker, then hand the outcome to
    /// `Supervisor::finish_start`.
    Spawn,
}

/// The first half of a stop request: report, or kill the worker that was
/// taken out of the slot and hand the outcome to `finish_stop`.
#[derive(Debug)]
pub enum StopStep<H> {
    Report(Status),
    Kill(H),
}

/// The slot that holds the handle of the one running worker, if any. `H` is
/// the host's process handle; the supervisor only stores and hands it back.
///
/// A caller that shares a supervisor keeps it behind one lock and holds the
/// lock from the first half of a request to the second.
///
/// The slot is emptied by a stop request alone. A worker that exits on its
/// own is seen by its drain, which only logs it: until a stop request comes,
/// the supervisor still counts that worker as running and answers a start
/// with "already running".
pub struct Supervisor<H> {
    slot: Option<H>,
    spawns: Ghost<nat>,
}

impl<H> View for Supervisor<H> {
    type V = SupervisorView;

    closed spec fn view(&self) -> SupervisorView {
        SupervisorView { running: self.slot is Some, spawns: self.spawns@ }
    }
}

impl<H> Supervisor<H> {
    /// The handle in the slot.
    pub closed spec fn handle(&self) -> Option<H> {
        self.slot
    }

    /// An idle supervisor: the slot is empty.
    pub fn new() -> (s: Self)
        ensures
            s@ == (SupervisorView { running: false, spawns: 0 }),
            s.handle() is None,
    {
        Supervisor { slot: None, spawns: Ghost(0) }
    }

    /// Whether the slot holds a worker.
    pub fn is_running(&self) -> (r: bool)
        ensures
            r == self@.running,
            r == self.handle() is Some,
    {
        self.slot.is_some()
    }

    /// Decides a start request. A running worker is reported, not spawned
    /// again; an empty slot asks for a spawn.
    pub fn begin_start(&self) -> (r: StartStep)
        ensures
            self@.running ==> r == StartStep::Report(after_start(self@).1),
            !self@.running ==> r == StartStep::Spawn,
    {
        if self.slot.is_some() {
            StartStep::Report(Status::AlreadyRunning)
        } else {
            StartStep::Spawn
        }
    }

    /// Completes a start request with the outcome of the spawn. A new worker
    /// goes into the slot; a failed spawn leaves the slot empty and is
    /// reported as a spawn error.
    pub fn finish_start(&mut self, spawned: Result<H, SpawnFailure>) -> (r: Result<
        Status,
        SupervisorError,
    >)
        requires
            !old(self)@.running,
        ensures
            match spawned {
                Ok(h) => {
                    &&& final(self)@ == after_start(old(self)@).0
                    &&& r == Ok::<Status, SupervisorError>(after_start(old(self)@).1)
                    &&& final(self).handle() == Some(h)
                },
                Err(f) => {
                    &&& final(self)@ == old(self)@
                    &&& final(self).handle() is None
                    &&& r == Err::<Status, SupervisorError>(SupervisorError::Spawn(f))
                },
            },
    {
        match spawned {
            Ok(h) => {
                self.slot = Some(h);
                self.spawns = Ghost(self.spawns@ + 1);
                Ok(Status::Started)
            },
            Err(f) => Err(SupervisorError::Spawn(f)),
        }
    }

    /// Decides a stop request. The slot is emptied in any case; a worker that
    /// was in it is handed out to be killed.
    pub fn begin_stop(&mut self) -> (r: StopStep<H>)
        ensures
            final(self)@ == after_stop(old(self)@).0,
            final(self).handle() is None,
            match r {
                StopStep::Report(s) => !old(self)@.running && s == after_stop(old(self)@).1,
                StopStep::Kill(h) => old(self).handle() == Some(h),
            },
    {
        match self.slot.take() {
            Some(h) => StopStep::Kill(h),
            None => StopStep::Report(Status::NotRunning),
        }
    }
}

/// Completes a stop request with the outcome of the kill. A failed kill is
/// reported and not retried; the slot was cleared before the kill.
pub fn finish_stop(killed: Result<(), String>) -> (r: Result<Status, SupervisorError>)
    ensures
        match killed {
            Ok(()) => r == Ok::<Status, SupervisorError>(Status::Stopped),
            Err(m) => r == Err::<Status, SupervisorError>(SupervisorError::Kill(m)),
        },
{
    match killed {
        Ok(()) => Ok(Status::Stopped),
        Err(m) => Err(SupervisorError::Kill(m)),
    }
}

} // verus!
