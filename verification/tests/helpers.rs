use sidecar_supervisor::diag::AppState;
use sidecar_supervisor::launcher::{choose_paths, resolve_tool_path, validate_launch, ToolPaths};
use sidecar_supervisor::probe::{wait_ready_outcome, ProbeSchedule, ProbeStep};
use sidecar_supervisor::state::{DependencyKind, SupervisorError};
use sidecar_supervisor::text::{dec_u16, log_line, ready_url, tagged_message};

#[test]
fn decimal_rendering_is_exact() {
    assert_eq!(dec_u16(0), "0");
    assert_eq!(dec_u16(7), "7");
    assert_eq!(dec_u16(10), "10");
    assert_eq!(dec_u16(3000), "3000");
    assert_eq!(dec_u16(65535), "65535");
}

#[test]
fn ready_url_names_the_allocated_port() {
    assert_eq!(ready_url(4000), "http://localhost:4000");
    assert_eq!(ready_url(80), "http://localhost:80");
}

#[test]
fn log_lines_have_the_documented_shape() {
    assert_eq!(
        tagged_message("ServerCheck", "Server ready on port 3000"),
        "[ServerCheck] Server ready on port 3000"
    );
    assert_eq!(
        log_line("2024-01-01 12:00:00", "[ServerCheck] waiting"),
        "2024-01-01 12:00:00 [ServerCheck] waiting\n"
    );
}

#[test]
fn error_tags_name_each_failure() {
    assert_eq!(SupervisorError::NoPortAvailable.tag(), "no port available");
    assert_eq!(
        SupervisorError::MissingDependency(DependencyKind::Executable).tag(),
        "executable not found"
    );
    assert_eq!(
        SupervisorError::MissingDependency(DependencyKind::WorkingDir).tag(),
        "working directory not found"
    );
    assert_eq!(SupervisorError::SpawnFailed.tag(), "spawn failed");
    assert_eq!(SupervisorError::ProbeTimeout.tag(), "server never became ready");
    assert_eq!(SupervisorError::AlreadyInProgress.tag(), "spawn already in progress");
    assert_eq!(SupervisorError::ShutdownTimeout.tag(), "graceful shutdown timed out");
}

#[test]
fn launch_validation_names_the_missing_path() {
    assert_eq!(validate_launch(true, true), Ok(()));
    assert_eq!(
        validate_launch(false, true),
        Err(SupervisorError::MissingDependency(DependencyKind::Executable))
    );
    assert_eq!(
        validate_launch(true, false),
        Err(SupervisorError::MissingDependency(DependencyKind::WorkingDir))
    );
    assert_eq!(
        validate_launch(false, false),
        Err(SupervisorError::MissingDependency(DependencyKind::Executable))
    );
}

#[test]
fn tool_path_falls_back_when_the_lookup_fails() {
    assert_eq!(
        resolve_tool_path(Some("/usr/bin/node".to_string()), "node.exe"),
        "/usr/bin/node"
    );
    assert_eq!(resolve_tool_path(None, "node.exe"), "node.exe");
}

fn paths(tag: &str) -> ToolPaths {
    ToolPaths {
        runtime_exe: format!("{}/node", tag),
        package_manager: format!("{}/npm.cjs", tag),
        manifest: format!("{}/package.json", tag),
    }
}

#[test]
fn saved_paths_are_reused_only_when_intact() {
    let (chosen, save) = choose_paths(Some(paths("saved")), true, paths("found"));
    assert_eq!(chosen, paths("saved"));
    assert!(!save);

    let (chosen, save) = choose_paths(Some(paths("saved")), false, paths("found"));
    assert_eq!(chosen, paths("found"));
    assert!(save);

    let (chosen, save) = choose_paths(None, false, paths("found"));
    assert_eq!(chosen, paths("found"));
    assert!(save);
}

#[test]
fn probe_schedule_succeeds_on_first_connection() {
    let mut p = ProbeSchedule::new(20, 500);
    assert_eq!(p.record_attempt(false), ProbeStep::RetryAfter(500));
    assert_eq!(p.record_attempt(true), ProbeStep::Succeeded);
    assert_eq!(p.attempts_made, 2);
}

#[test]
fn probe_schedule_exhausts_its_budget() {
    let mut p = ProbeSchedule::new(2, 100);
    assert_eq!(p.record_attempt(false), ProbeStep::RetryAfter(100));
    assert_eq!(p.record_attempt(false), ProbeStep::Exhausted);
    assert_eq!(p.attempts_made, 2);
}

#[test]
fn wait_outcome_reflects_the_budgeted_attempts() {
    assert!(wait_ready_outcome(&vec![false, true], 20));
    assert!(!wait_ready_outcome(&vec![false, false], 2));
    // A success past the budget would never have been attempted.
    assert!(!wait_ready_outcome(&vec![false, false, true], 2));
    assert!(!wait_ready_outcome(&vec![], 5));
    assert!(wait_ready_outcome(&vec![true], 1));
}

#[test]
fn app_state_records_the_log_file() {
    let mut s = AppState::new();
    assert_eq!(s.log_file(), None);
    s.set_log_file("logs/supervisor.log".to_string());
    assert_eq!(s.log_file(), Some(&"logs/supervisor.log".to_string()));
}
