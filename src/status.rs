use vstd::prelude::*;
use vstd::string::StringExecFns;

verus! {

/// The fixed address at which the worker serves its clients.
pub open spec fn backend_url_text() -> Seq<char> {
    "http://localhost:8000"@
}

/// The worker's connection address. It is a constant: it does not depend on
/// whether the worker runs, and reading it takes no lock.
pub fn get_backend_url() -> (r: String)
    ensures
        r@ == backend_url_text(),
{
    String::from_str("http://localhost:8000")
}

/// A successful outcome of a start or stop request.
#[derive(Clone, Copy, Debug, PartialEq, Eq, Structural)]
pub enum Status {
    /// A new worker was spawned and now occupies the slot.
    Started,
    /// The slot was already occupied; nothing was spawned.
    AlreadyRunning,
    /// The worker was removed from the slot and killed.
    Stopped,
    /// The slot was empty; nothing was killed.
    NotRunning,
}

pub open spec fn status_text(s: Status) -> Seq<char> {
    match s {
        Status::Started => "Backend started"@,
        Status::AlreadyRunning => "Backend already running"@,
        Status::Stopped => "Backend stopped"@,
        Status::NotRunning => "Backend was not running"@,
    }
}

impl Status {
    /// The text reported to the caller for this outcome.
    pub fn message(&self) -> (r: String)
        ensures
            r@ == status_text(*self),
    {
        match self {
            Status::Started => String::from_str("Backend started"),
            Status::AlreadyRunning => String::from_str("Backend already running"),
            Status::Stopped => String::from_str("Backend stopped"),
            Status::NotRunning => String::from_str("Backend was not running"),
        }
    }
}

/// Why spawning the worker failed. Either way the slot stays empty and the
/// caller may try again.
#[derive(Clone, Debug, PartialEq, Eq)]
pub enum SpawnFailure {
    /// The worker executable could not be resolved.
    Resolve(String),
    /// The operating system refused to create the worker process.
    Launch(String),
}

/// Why a start or stop request failed. Each variant carries the underlying
/// cause as text.
#[derive(Clone, Debug, PartialEq, Eq)]
pub enum SupervisorError {
    /// The guard around the slot was poisoned by an earlier panic. The
    /// supervisor stays usable for later requests.
    Lock(String),
    /// The worker could not be spawned.
    Spawn(SpawnFailure),
    /// The operating system refused to terminate the worker. The slot has
    /// been cleared all the same.
    Kill(String),
}

pub open spec fn error_text(e: SupervisorError) -> Seq<char> {
    match e {
        SupervisorError::Lock(m) => m@,
        SupervisorError::Spawn(SpawnFailure::Resolve(m)) => "Failed to create sidecar command: "@ + m@,
        SupervisorError::Spawn(SpawnFailure::Launch(m)) => "Failed to spawn backend: "@ + m@,
        SupervisorError::Kill(m) => "Failed to kill backend: "@ + m@,
    }
}

impl SupervisorError {
    /// The text reported to the caller for this failure.
    pub fn message(&self) -> (r: String)
        ensures
            r@ == error_text(*self),
    {
        match self {
            SupervisorError::Lock(m) => m.clone(),
            SupervisorError::Spawn(SpawnFailure::Resolve(m)) => {
                String::from_str("Failed to create sidecar command: ").concat(m.as_str())
            },
            SupervisorError::Spawn(SpawnFailure::Launch(m)) => {
                String::from_str("Failed to spawn backend: ").concat(m.as_str())
            },
            SupervisorError::Kill(m) => {
                String::from_str("Failed to kill backend: ").concat(m.as_str())
            },
        }
    }
}

/// Flattens an outcome into the text form in which the host's command layer
/// reports it: the status message on success, the error message on failure.
pub fn outcome_text(r: &Result<Status, SupervisorError>) -> (t: Result<String, String>)
    ensures
        match (*r, t) {
            (Ok(s), Ok(m)) => m@ == status_text(s),
            (Err(e), Err(m)) => m@ == error_text(e),
            _ => false,
        },
{
    match r {
        Ok(s) => Ok(s.message()),
        Err(e) => Err(e.message()),
    }
}

} // verus!
