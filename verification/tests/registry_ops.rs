use sidecar_supervisor::registry::{Registry, ShutdownBegin};
use sidecar_supervisor::state::{BackendProcess, SupervisorError, SupervisorState};

fn sample_process() -> BackendProcess {
    BackendProcess { pid: 4242, port: 3000, spawn_time_ms: 1_700_000_000_000 }
}

#[test]
fn fresh_registry_is_idle() {
    let r = Registry::new();
    assert_eq!(r.state, SupervisorState::Idle);
    assert_eq!(r.handle, None);
    assert!(!r.closing);
}

#[test]
fn spawn_begin_granted_once_refused_twice() {
    // Two spawn requests serialized by the registry: exactly one proceeds.
    let mut r = Registry::new();
    let first = r.try_spawn_begin();
    let second = r.try_spawn_begin();
    assert_eq!(first, Ok(()));
    assert_eq!(second, Err(SupervisorError::AlreadyInProgress));
    assert_eq!(r.state, SupervisorState::Spawning);
}

#[test]
fn spawn_begin_refused_while_closing() {
    let mut r = Registry::new();
    r.set_closing();
    assert_eq!(r.try_spawn_begin(), Err(SupervisorError::AlreadyInProgress));
    assert_eq!(r.state, SupervisorState::Idle);
}

#[test]
fn commit_and_mark_ready_walk_the_states() {
    let mut r = Registry::new();
    r.try_spawn_begin().unwrap();
    r.commit_spawned(sample_process());
    assert_eq!(r.state, SupervisorState::Probing);
    assert_eq!(r.handle, Some(sample_process()));
    r.mark_ready();
    assert_eq!(r.state, SupervisorState::Ready);
    assert_eq!(r.handle, Some(sample_process()));
}

#[test]
fn release_to_idle_hands_back_the_handle() {
    let mut r = Registry::new();
    r.try_spawn_begin().unwrap();
    r.commit_spawned(sample_process());
    let handed_back = r.release_to_idle();
    assert_eq!(handed_back, Some(sample_process()));
    assert_eq!(r.state, SupervisorState::Idle);
    assert_eq!(r.handle, None);
}

#[test]
fn begin_shutdown_on_idle_is_a_no_op() {
    let mut r = Registry::new();
    assert_eq!(r.begin_shutdown(), ShutdownBegin::NotRunning);
    assert_eq!(r.state, SupervisorState::Idle);
}

#[test]
fn begin_shutdown_reports_in_flight_spawn() {
    let mut r = Registry::new();
    r.try_spawn_begin().unwrap();
    assert_eq!(r.begin_shutdown(), ShutdownBegin::InFlight);
    assert_eq!(r.state, SupervisorState::Spawning);
}

#[test]
fn begin_shutdown_claims_a_ready_instance() {
    let mut r = Registry::new();
    r.try_spawn_begin().unwrap();
    r.commit_spawned(sample_process());
    r.mark_ready();
    assert_eq!(r.begin_shutdown(), ShutdownBegin::Begun(Some(sample_process())));
    assert_eq!(r.state, SupervisorState::ShuttingDown);
}

#[test]
fn shutdown_ends_idle_and_repeating_it_is_a_no_op() {
    // After a successful shutdown sequence the registry is idle with no
    // handle, and a second shutdown finds nothing to do.
    let mut r = Registry::new();
    r.try_spawn_begin().unwrap();
    r.commit_spawned(sample_process());
    r.mark_ready();
    r.begin_shutdown();
    r.complete_shutdown();
    assert_eq!(r.state, SupervisorState::Idle);
    assert_eq!(r.handle, None);
    let again = r.begin_shutdown();
    assert_eq!(again, ShutdownBegin::NotRunning);
    assert_eq!(r.state, SupervisorState::Idle);
    assert_eq!(r.handle, None);
}

#[test]
fn mark_failed_keeps_the_handle_for_the_kill() {
    let mut r = Registry::new();
    r.try_spawn_begin().unwrap();
    r.commit_spawned(sample_process());
    r.mark_failed();
    assert_eq!(r.state, SupervisorState::Failed);
    assert_eq!(r.handle, Some(sample_process()));
    assert_eq!(r.begin_shutdown(), ShutdownBegin::Begun(Some(sample_process())));
}
