//! The supervisor's shared vocabulary: lifecycle states, the record kept for
//! a spawned backend instance, and the error taxonomy.

use vstd::prelude::*;

verus! {

/// The process-wide lifecycle state of the supervised backend slot.
///
/// At most one backend instance is associated with the non-`Idle` states at
/// any time; the registry enforces this.
#[derive(Clone, Copy, Debug, PartialEq, Eq, Structural)]
pub enum SupervisorState {
    /// No backend instance exists and none is being prepared.
    Idle,
    /// A spawn has been granted and the launcher is starting the process.
    Spawning,
    /// The process is running and the prober is waiting for its port.
    Probing,
    /// The backend answered a readiness probe and serves the front-end.
    Ready,
    /// The startup budget was exhausted or a launch failed terminally.
    Failed,
    /// A shutdown sequence owns the slot and is terminating the process.
    ShuttingDown,
}

/// The record kept for one spawned backend instance: the identifiers the
/// supervisor needs to probe it and to kill its process tree. The output
/// stream handles stay with the shell that owns the real process object.
#[derive(Clone, Copy, Debug, PartialEq, Eq, Structural)]
pub struct BackendProcess {
    /// Operating-system process identifier of the spawned backend.
    pub pid: u32,
    /// Local TCP port the backend was told to listen on.
    pub port: u16,
    /// Spawn timestamp in milliseconds, as the shell's clock reported it.
    pub spawn_time_ms: u64,
}

/// Which of the paths a launch depends on was found missing.
#[derive(Clone, Copy, Debug, PartialEq, Eq, Structural)]
pub enum DependencyKind {
    /// The backend executable itself.
    Executable,
    /// The working directory the backend must be started in.
    WorkingDir,
}

/// Everything that can go wrong while supervising the backend.
#[derive(Clone, Copy, Debug, PartialEq, Eq, Structural)]
pub enum SupervisorError {
    /// Every port of the configured scan range was taken.
    NoPortAvailable,
    /// The executable or the working directory does not exist.
    MissingDependency(DependencyKind),
    /// The operating system refused to create the process.
    SpawnFailed,
    /// The allocated port never became reachable within the probe budget.
    ProbeTimeout,
    /// A spawn was requested while one is already underway.
    AlreadyInProgress,
    /// The backend did not acknowledge a graceful shutdown in time. This is
    /// recovered locally by the forced kill and never surfaces to the user.
    ShutdownTimeout,
}

impl SupervisorError {
    /// A short diagnostic tag for each error, fit for a log line.
    pub open spec fn tag_spec(self) -> Seq<char> {
        match self {
            SupervisorError::NoPortAvailable => "no port available"@,
            SupervisorError::MissingDependency(DependencyKind::Executable) => (
            "executable not found"@),
            SupervisorError::MissingDependency(DependencyKind::WorkingDir) => (
            "working directory not found"@),
            SupervisorError::SpawnFailed => "spawn failed"@,
            SupervisorError::ProbeTimeout => "server never became ready"@,
            SupervisorError::AlreadyInProgress => "spawn already in progress"@,
            SupervisorError::ShutdownTimeout => "graceful shutdown timed out"@,
        }
    }

    /// Returns the diagnostic tag promised by [`Self::tag_spec`].
    pub fn tag(&self) -> (s: &'static str)
        ensures
            s@ == self.tag_spec(),
    {
        match self {
            SupervisorError::NoPortAvailable => "no port available",
            SupervisorError::MissingDependency(DependencyKind::Executable) => (
            "executable not found"),
            SupervisorError::MissingDependency(DependencyKind::WorkingDir) => (
            "working directory not found"),
            SupervisorError::SpawnFailed => "spawn failed",
            SupervisorError::ProbeTimeout => "server never became ready",
            SupervisorError::AlreadyInProgress => "spawn already in progress",
            SupervisorError::ShutdownTimeout => "graceful shutdown timed out",
        }
    }
}

} // verus!
