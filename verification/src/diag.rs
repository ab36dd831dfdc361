//! The diagnostics sink's application-side state: where the append-only
//! log is written, once the shell has created the directory for it.

use vstd::prelude::*;

verus! {

/// Application-wide diagnostics state: the path of the log file every
/// supervisor event is appended to, once one has been chosen. The shell
/// keeps this behind its lock and does the actual file writes.
#[derive(Clone, Debug, PartialEq, Eq)]
pub struct AppState {
    /// The log file's path, absent until the log directory exists.
    pub log_file_path: Option<String>,
}

impl AppState {
    /// A fresh state with no log file chosen yet.
    pub fn new() -> (s: AppState)
        ensures
            s.log_file_path is None,
    {
        AppState { log_file_path: None }
    }

    /// Records the log file the diagnostics sink should append to.
    pub fn set_log_file(&mut self, path: String)
        ensures
            final(self).log_file_path == Some(path),
    {
        self.log_file_path = Some(path);
    }

    /// The recorded log file path, if one was set.
    pub fn log_file(&self) -> (r: Option<&String>)
        ensures
            r matches Some(p) ==> self.log_file_path matches Some(q) && p == q,
            r is None <==> self.log_file_path is None,
    {
        self.log_file_path.as_ref()
    }
}

} // verus!
