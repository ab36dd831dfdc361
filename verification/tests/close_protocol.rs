use sidecar_supervisor::registry::Registry;
use sidecar_supervisor::shutdown::{CloseAction, CloseEvent, ClosePhase, ShutdownNegotiator};
use sidecar_supervisor::state::{BackendProcess, SupervisorState};

fn running_registry(pid: u32, port: u16) -> Registry {
    let mut r = Registry::new();
    r.try_spawn_begin().unwrap();
    r.commit_spawned(BackendProcess { pid, port, spawn_time_ms: 0 });
    r.mark_ready();
    r
}

#[test]
fn declined_confirmation_aborts_the_close_entirely() {
    // The user declines: registry state unchanged, process still running,
    // the window stays open.
    let mut reg = running_registry(55, 3000);
    let before = reg;
    let mut neg = ShutdownNegotiator::new(true, 3000);

    let a1 = neg.on_event(&mut reg, CloseEvent::CloseSignal { user_initiated: true });
    assert_eq!(a1, CloseAction::PromptUser);
    assert_eq!(reg, before);

    let a2 = neg.on_event(&mut reg, CloseEvent::ConfirmResult(false));
    assert_eq!(a2, CloseAction::CancelClose);
    assert_eq!(reg, before);
    assert_eq!(reg.state, SupervisorState::Ready);
    assert_eq!(reg.handle, Some(BackendProcess { pid: 55, port: 3000, spawn_time_ms: 0 }));
    assert!(!reg.closing);
    assert_eq!(neg.phase, ClosePhase::Inactive);
}

#[test]
fn graceful_timeout_falls_back_to_the_forced_kill() {
    // Close confirmed, the backend never acknowledges: the process is
    // force-killed, the registry returns to idle, the window closes.
    let mut reg = running_registry(55, 3000);
    let mut neg = ShutdownNegotiator::new(true, 3000);

    neg.on_event(&mut reg, CloseEvent::CloseSignal { user_initiated: true });
    let a1 = neg.on_event(&mut reg, CloseEvent::ConfirmResult(true));
    assert_eq!(a1, CloseAction::RequestGraceful { port: 3000, deadline_ms: 3000 });
    assert!(reg.closing);
    assert!(neg.graceful_attempted);
    assert_eq!(reg.state, SupervisorState::ShuttingDown);

    let a2 = neg.on_event(&mut reg, CloseEvent::GracefulTimeout);
    assert_eq!(a2, CloseAction::ForceKill { pid: 55 });

    let a3 = neg.on_event(&mut reg, CloseEvent::ProcessGone);
    assert_eq!(a3, CloseAction::FinishClose);
    assert_eq!(reg.state, SupervisorState::Idle);
    assert_eq!(reg.handle, None);
    assert_eq!(neg.phase, ClosePhase::Inactive);
}

#[test]
fn graceful_acknowledgement_still_reaps_the_process_tree() {
    let mut reg = running_registry(90, 4100);
    let mut neg = ShutdownNegotiator::new(true, 1500);
    neg.on_event(&mut reg, CloseEvent::CloseSignal { user_initiated: true });
    neg.on_event(&mut reg, CloseEvent::ConfirmResult(true));
    let a = neg.on_event(&mut reg, CloseEvent::GracefulAck);
    assert_eq!(a, CloseAction::ForceKill { pid: 90 });
    let done = neg.on_event(&mut reg, CloseEvent::ProcessGone);
    assert_eq!(done, CloseAction::FinishClose);
    assert_eq!(reg.state, SupervisorState::Idle);
}

#[test]
fn backend_without_graceful_endpoint_is_killed_directly() {
    let mut reg = running_registry(12, 3000);
    let mut neg = ShutdownNegotiator::new(false, 3000);
    neg.on_event(&mut reg, CloseEvent::CloseSignal { user_initiated: true });
    let a = neg.on_event(&mut reg, CloseEvent::ConfirmResult(true));
    assert_eq!(a, CloseAction::ForceKill { pid: 12 });
    assert!(!neg.graceful_attempted);
}

#[test]
fn application_exit_skips_the_confirmation() {
    let mut reg = running_registry(7, 3000);
    let mut neg = ShutdownNegotiator::new(true, 3000);
    let a = neg.on_event(&mut reg, CloseEvent::CloseSignal { user_initiated: false });
    assert_eq!(a, CloseAction::RequestGraceful { port: 3000, deadline_ms: 3000 });
    assert!(reg.closing);
}

#[test]
fn repeated_close_signals_are_ignored() {
    let mut reg = running_registry(7, 3000);
    let mut neg = ShutdownNegotiator::new(true, 3000);
    neg.on_event(&mut reg, CloseEvent::CloseSignal { user_initiated: true });
    neg.on_event(&mut reg, CloseEvent::ConfirmResult(true));
    let before_reg = reg;
    let before_neg = neg;
    // More clicks on the close button while the sequence runs.
    let a = neg.on_event(&mut reg, CloseEvent::CloseSignal { user_initiated: true });
    assert_eq!(a, CloseAction::Ignore);
    let b = neg.on_event(&mut reg, CloseEvent::CloseSignal { user_initiated: false });
    assert_eq!(b, CloseAction::Ignore);
    assert_eq!(reg, before_reg);
    assert_eq!(neg, before_neg);
}

#[test]
fn close_during_probing_waits_for_the_spawn_to_settle() {
    // A shutdown issued while a spawn is in flight does not race it.
    let mut reg = Registry::new();
    reg.try_spawn_begin().unwrap();
    reg.commit_spawned(BackendProcess { pid: 20, port: 3000, spawn_time_ms: 0 });
    let mut neg = ShutdownNegotiator::new(true, 3000);
    neg.on_event(&mut reg, CloseEvent::CloseSignal { user_initiated: true });
    let a = neg.on_event(&mut reg, CloseEvent::ConfirmResult(true));
    assert_eq!(a, CloseAction::WaitForSettle);
    assert_eq!(reg.state, SupervisorState::Probing);
    assert!(reg.closing);

    // The probe succeeds; the coordinator settles on Ready, and the
    // negotiator claims the slot.
    reg.mark_ready();
    let b = neg.on_event(&mut reg, CloseEvent::RegistrySettled);
    assert_eq!(b, CloseAction::RequestGraceful { port: 3000, deadline_ms: 3000 });
    assert_eq!(reg.state, SupervisorState::ShuttingDown);
}

#[test]
fn failed_slot_without_a_process_closes_at_once() {
    let mut reg = Registry::new();
    reg.try_spawn_begin().unwrap();
    reg.mark_failed();
    assert_eq!(reg.handle, None);
    let mut neg = ShutdownNegotiator::new(true, 3000);
    neg.on_event(&mut reg, CloseEvent::CloseSignal { user_initiated: true });
    let a = neg.on_event(&mut reg, CloseEvent::ConfirmResult(true));
    assert_eq!(a, CloseAction::FinishClose);
    assert_eq!(reg.state, SupervisorState::Idle);
    assert_eq!(reg.handle, None);
}

#[test]
fn close_of_an_idle_slot_finishes_at_once() {
    let mut reg = Registry::new();
    let mut neg = ShutdownNegotiator::new(true, 3000);
    neg.on_event(&mut reg, CloseEvent::CloseSignal { user_initiated: true });
    let a = neg.on_event(&mut reg, CloseEvent::ConfirmResult(true));
    assert_eq!(a, CloseAction::FinishClose);
    assert_eq!(reg.state, SupervisorState::Idle);
    assert!(reg.closing);
}
