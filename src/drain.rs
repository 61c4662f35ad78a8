use vstd::prelude::*;

verus! {

/// One event from a spawned worker.
#[derive(Clone, Debug, PartialEq, Eq)]
pub enum WorkerEvent {
    /// A line the worker wrote to its standard output.
    Stdout(Vec<u8>),
    /// A line the worker wrote to its standard error.
    Stderr(Vec<u8>),
    /// The process layer reported an error while the worker ran.
    Error(String),
    /// The worker exited, with its exit code where one is known.
    Terminated(Option<i32>),
}

/// Where the drain sends an event.
#[derive(Clone, Copy, Debug, PartialEq, Eq, Structural)]
pub enum LogChannel {
    Info,
    Error,
}

/// What the drain does with one event: the channel it logs to, and whether
/// the drain ends after it.
#[derive(Clone, Copy, Debug, PartialEq, Eq, Structural)]
pub struct DrainStep {
    pub channel: LogChannel,
    pub finished: bool,
}

pub open spec fn route_spec(e: WorkerEvent) -> DrainStep {
    match e {
        WorkerEvent::Stdout(_) => DrainStep { channel: LogChannel::Info, finished: false },
        WorkerEvent::Stderr(_) => DrainStep { channel: LogChannel::Error, finished: false },
        WorkerEvent::Error(_) => DrainStep { channel: LogChannel::Error, finished: false },
        WorkerEvent::Terminated(_) => DrainStep { channel: LogChannel::Info, finished: true },
    }
}

/// Routes one event: standard output and termination to the informational
/// channel, standard error and process errors to the error channel. The drain
/// ends on termination and on nothing else.
pub fn route(e: &WorkerEvent) -> (r: DrainStep)
    ensures
        r == route_spec(*e),
{
    match e {
        WorkerEvent::Stdout(_) => DrainStep { channel: LogChannel::Info, finished: false },
        WorkerEvent::Stderr(_) => DrainStep { channel: LogChannel::Error, finished: false },
        WorkerEvent::Error(_) => DrainStep { channel: LogChannel::Error, finished: false },
        WorkerEvent::Terminated(_) => DrainStep { channel: LogChannel::Info, finished: true },
    }
}

/// How many events of a stream the drain takes: all of them up to and
/// including the first termination, or the whole stream if none comes.
pub open spec fn consumed_len(events: Seq<WorkerEvent>, n: nat) -> bool {
    &&& n <= events.len()
    &&& forall|i: int| 0 <= i && i + 1 < n ==> !(#[trigger] events[i] is Terminated)
    &&& n == events.len() || (n >= 1 && events[n - 1] is Terminated)
}

/// Runs the drain over a stream of events that has been received: the routing
/// of each event it takes, in order, stopping after the first termination even
/// where more events follow.
pub fn drain(events: &Vec<WorkerEvent>) -> (steps: Vec<DrainStep>)
    ensures
        consumed_len(events@, steps@.len()),
        forall|i: int| 0 <= i < steps@.len() ==> #[trigger] steps@[i] == route_spec(events@[i]),
{
    let mut steps: Vec<DrainStep> = Vec::new();
    let mut i: usize = 0;
    while i < events.len()
        invariant
            i <= events@.len(),
            steps@.len() == i,
            forall|j: int| 0 <= j < i ==> !(#[trigger] events@[j] is Terminated),
            forall|j: int| 0 <= j < i ==> #[trigger] steps@[j] == route_spec(events@[j]),
        decreases events@.len() - i,
    {
        let step = route(&events[i]);
        steps.push(step);
        i = i + 1;
        if step.finished {
            return steps;
        }
    }
    steps
}

} // verus!
