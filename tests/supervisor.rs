use backend_supervisor::drain::{drain, route, DrainStep, LogChannel, WorkerEvent};
use backend_supervisor::status::{get_backend_url, outcome_text, SpawnFailure, Status, SupervisorError};
use backend_supervisor::supervisor::{finish_stop, StartStep, StopStep, Supervisor};

/// Runs a whole start request with a spawn that yields `handle`; counts spawns.
fn start(sup: &mut Supervisor<u32>, handle: u32, spawns: &mut u32) -> Result<Status, SupervisorError> {
    match sup.begin_start() {
        StartStep::Report(s) => Ok(s),
        StartStep::Spawn => {
            *spawns += 1;
            sup.finish_start(Ok(handle))
        }
    }
}

/// Runs a whole stop request with a kill that succeeds; records the killed handle.
fn stop(sup: &mut Supervisor<u32>, killed: &mut Vec<u32>) -> Result<Status, SupervisorError> {
    match sup.begin_stop() {
        StopStep::Report(s) => Ok(s),
        StopStep::Kill(h) => {
            killed.push(h);
            finish_stop(Ok(()))
        }
    }
}

#[test]
fn start_address_stop_stop_scenario() {
    let mut sup: Supervisor<u32> = Supervisor::new();
    let mut spawns = 0;
    let mut killed = Vec::new();
    assert_eq!(start(&mut sup, 1, &mut spawns), Ok(Status::Started));
    assert_eq!(get_backend_url(), "http://localhost:8000");
    assert_eq!(stop(&mut sup, &mut killed), Ok(Status::Stopped));
    let again = stop(&mut sup, &mut killed);
    assert_eq!(again, Ok(Status::NotRunning));
    assert_eq!(outcome_text(&again), Ok("Backend was not running".to_string()));
    assert_eq!(killed, vec![1]);
}

#[test]
fn repeated_start_spawns_once() {
    let mut sup: Supervisor<u32> = Supervisor::new();
    let mut spawns = 0;
    assert_eq!(start(&mut sup, 1, &mut spawns), Ok(Status::Started));
    for k in 2..6 {
        assert_eq!(start(&mut sup, k, &mut spawns), Ok(Status::AlreadyRunning));
    }
    assert_eq!(spawns, 1);
    assert!(sup.is_running());
    let mut killed = Vec::new();
    stop(&mut sup, &mut killed).unwrap();
    assert_eq!(killed, vec![1]);
}

#[test]
fn stop_on_idle_reports_not_running() {
    let mut sup: Supervisor<u32> = Supervisor::new();
    let mut killed = Vec::new();
    assert_eq!(stop(&mut sup, &mut killed), Ok(Status::NotRunning));
    assert!(killed.is_empty());
    assert!(!sup.is_running());
}

#[test]
fn start_stop_start_spawns_twice() {
    let mut sup: Supervisor<u32> = Supervisor::new();
    let mut spawns = 0;
    let mut killed = Vec::new();
    assert_eq!(start(&mut sup, 1, &mut spawns), Ok(Status::Started));
    assert_eq!(stop(&mut sup, &mut killed), Ok(Status::Stopped));
    assert_eq!(start(&mut sup, 2, &mut spawns), Ok(Status::Started));
    assert_eq!(spawns, 2);
    assert!(sup.is_running());
    assert_eq!(stop(&mut sup, &mut killed), Ok(Status::Stopped));
    assert_eq!(killed, vec![1, 2]);
}

#[test]
fn termination_does_not_empty_slot() {
    let mut sup: Supervisor<u32> = Supervisor::new();
    let mut spawns = 0;
    start(&mut sup, 1, &mut spawns).unwrap();
    let step = route(&WorkerEvent::Terminated(Some(0)));
    assert!(step.finished);
    assert!(sup.is_running());
    assert_eq!(start(&mut sup, 2, &mut spawns), Ok(Status::AlreadyRunning));
    assert_eq!(spawns, 1);
}

#[test]
fn interleaved_starts_leave_one_worker() {
    let mut sup: Supervisor<u32> = Supervisor::new();
    let mut spawns = 0;
    let results: Vec<_> = (0..8).map(|k| start(&mut sup, k, &mut spawns)).collect();
    assert_eq!(results.iter().filter(|r| **r == Ok(Status::Started)).count(), 1);
    assert_eq!(spawns, 1);
    assert!(sup.is_running());
    let mut killed = Vec::new();
    stop(&mut sup, &mut killed).unwrap();
    assert_eq!(killed, vec![0]);
}

#[test]
fn address_is_fixed_in_every_state() {
    let mut sup: Supervisor<u32> = Supervisor::new();
    let idle = get_backend_url();
    let mut spawns = 0;
    start(&mut sup, 1, &mut spawns).unwrap();
    let running = get_backend_url();
    assert_eq!(idle, "http://localhost:8000");
    assert_eq!(running, idle);
}

#[test]
fn failed_spawn_leaves_slot_empty() {
    let mut sup: Supervisor<u32> = Supervisor::new();
    assert_eq!(sup.begin_start(), StartStep::Spawn);
    let r = sup.finish_start(Err(SpawnFailure::Launch("no such file".to_string())));
    assert_eq!(r, Err(SupervisorError::Spawn(SpawnFailure::Launch("no such file".to_string()))));
    assert!(!sup.is_running());
    assert_eq!(outcome_text(&r), Err("Failed to spawn backend: no such file".to_string()));
    assert_eq!(sup.begin_start(), StartStep::Spawn);
}

#[test]
fn failed_resolve_is_a_spawn_error() {
    let mut sup: Supervisor<u32> = Supervisor::new();
    let r = sup.finish_start(Err(SpawnFailure::Resolve("missing sidecar".to_string())));
    assert!(!sup.is_running());
    assert_eq!(
        r.unwrap_err().message(),
        "Failed to create sidecar command: missing sidecar"
    );
}

#[test]
fn failed_kill_still_clears_slot() {
    let mut sup: Supervisor<u32> = Supervisor::new();
    sup.finish_start(Ok(9)).unwrap();
    let step = sup.begin_stop();
    assert!(matches!(step, StopStep::Kill(9)));
    assert!(!sup.is_running());
    let r = finish_stop(Err("permission denied".to_string()));
    assert_eq!(r, Err(SupervisorError::Kill("permission denied".to_string())));
    assert_eq!(
        r.unwrap_err().message(),
        "Failed to kill backend: permission denied"
    );
}

#[test]
fn lock_error_message_is_its_cause() {
    let e = SupervisorError::Lock("poisoned lock: another task failed inside".to_string());
    assert_eq!(e.message(), "poisoned lock: another task failed inside");
}

#[test]
fn status_messages() {
    assert_eq!(Status::Started.message(), "Backend started");
    assert_eq!(Status::AlreadyRunning.message(), "Backend already running");
    assert_eq!(Status::Stopped.message(), "Backend stopped");
    assert_eq!(Status::NotRunning.message(), "Backend was not running");
    assert_eq!(outcome_text(&Ok(Status::Started)), Ok("Backend started".to_string()));
}

#[test]
fn events_are_routed_by_kind() {
    let info = DrainStep { channel: LogChannel::Info, finished: false };
    let error = DrainStep { channel: LogChannel::Error, finished: false };
    assert_eq!(route(&WorkerEvent::Stdout(b"ready".to_vec())), info);
    assert_eq!(route(&WorkerEvent::Stderr(b"warn".to_vec())), error);
    assert_eq!(route(&WorkerEvent::Error("pipe closed".to_string())), error);
    assert_eq!(
        route(&WorkerEvent::Terminated(None)),
        DrainStep { channel: LogChannel::Info, finished: true }
    );
}

#[test]
fn drain_stops_at_first_termination() {
    let events = vec![
        WorkerEvent::Stdout(b"a".to_vec()),
        WorkerEvent::Stderr(b"b".to_vec()),
        WorkerEvent::Terminated(Some(1)),
        WorkerEvent::Stdout(b"late".to_vec()),
        WorkerEvent::Terminated(Some(2)),
    ];
    let steps = drain(&events);
    assert_eq!(steps.len(), 3);
    assert_eq!(steps[1].channel, LogChannel::Error);
    assert!(steps[2].finished);
}

#[test]
fn drain_takes_whole_stream_without_termination() {
    let events = vec![
        WorkerEvent::Stdout(b"a".to_vec()),
        WorkerEvent::Error("oops".to_string()),
    ];
    let steps = drain(&events);
    assert_eq!(steps.len(), 2);
    assert!(!steps[1].finished);
    assert!(drain(&Vec::new()).is_empty());
}
