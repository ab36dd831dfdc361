//! The process launcher's decisions: which paths to start the backend
//! with, and whether a launch may proceed at all.
//!
//! The shell looks the paths up on disk and reports what exists; the
//! library decides, so that the decision is the same on every platform and
//! is pinned by a contract.

use vstd::prelude::*;
use vstd::string::StringExecFns;

use crate::state::DependencyKind;
use crate::state::SupervisorError;

verus! {

/// The paths a backend launch depends on: the runtime executable, the
/// package manager script, and the application manifest next to them.
#[derive(Clone, Debug, PartialEq, Eq)]
pub struct ToolPaths {
    /// Path of the runtime executable that runs the backend.
    pub runtime_exe: String,
    /// Path of the package manager script, kept for maintenance commands.
    pub package_manager: String,
    /// Path of the application manifest describing the backend.
    pub manifest: String,
}

/// A launch may proceed only when both the executable and the working
/// directory exist. The check is deliberately made before spawning: the
/// supervisor cannot proceed without them, and the resulting error names
/// what is missing. The executable is checked first.
pub fn validate_launch(exe_exists: bool, workdir_exists: bool) -> (r: Result<
    (),
    SupervisorError,
>)
    ensures
        r is Ok <==> exe_exists && workdir_exists,
        !exe_exists ==> r == Err::<(), SupervisorError>(
            SupervisorError::MissingDependency(DependencyKind::Executable),
        ),
        exe_exists && !workdir_exists ==> r == Err::<(), SupervisorError>(
            SupervisorError::MissingDependency(DependencyKind::WorkingDir),
        ),
{
    if !exe_exists {
        Err(SupervisorError::MissingDependency(DependencyKind::Executable))
    } else if !workdir_exists {
        Err(SupervisorError::MissingDependency(DependencyKind::WorkingDir))
    } else {
        Ok(())
    }
}

/// Picks a tool's path: the one the environment lookup found, or the bare
/// fallback name (resolved by the system's search path at spawn time) when
/// the lookup found nothing.
pub fn resolve_tool_path(found: Option<String>, fallback: &str) -> (r: String)
    ensures
        found matches Some(p) ==> r == p,
        found is None ==> r@ == fallback@,
{
    match found {
        Some(p) => p,
        None => String::from_str(fallback),
    }
}

/// Decides which paths to launch with: saved paths are reused only when
/// they were present and every one of them still exists on disk; anything
/// else falls back to the freshly discovered set, which is then worth
/// persisting (the second component of the result).
pub fn choose_paths(saved: Option<ToolPaths>, saved_all_exist: bool, discovered: ToolPaths) -> (r: (
    ToolPaths,
    bool,
))
    ensures
        saved matches Some(p) ==> (saved_all_exist ==> r == (p, false)),
        saved is None || !saved_all_exist ==> r == (discovered, true),
{
    match saved {
        Some(p) => {
            if saved_all_exist {
                (p, false)
            } else {
                (discovered, true)
            }
        },
        None => (discovered, true),
    }
}

} // verus!
