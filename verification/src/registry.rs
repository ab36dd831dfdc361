//! The process registry: the single source of truth for whether a backend
//! instance is currently running or starting.
//!
//! Every collaborator (the startup task, the close handler, the exit
//! handler) goes through the registry's operations; the shell serializes
//! the calls behind one lock, so each operation below sees and leaves a
//! consistent snapshot. The contracts pin every transition exactly, which
//! is what makes duplicate-spawn prevention and shutdown idempotence
//! provable.

use vstd::prelude::*;

use crate::state::BackendProcess;
use crate::state::SupervisorError;
use crate::state::SupervisorState;

verus! {

/// What `begin_shutdown` found and did.
#[derive(Clone, Copy, Debug, PartialEq, Eq)]
pub enum ShutdownBegin {
    /// The slot was already `Idle`: nothing to terminate.
    NotRunning,
    /// A shutdown sequence already owns the slot.
    AlreadyStopping,
    /// A spawn or probe is still in flight; the caller must let it settle
    /// (or cancel it) before terminating, so that no process is leaked.
    InFlight,
    /// The slot moved to `ShuttingDown`; the payload is the handle to
    /// terminate, absent when the slot failed before a process existed.
    Begun(Option<BackendProcess>),
}

/// The registry's stored snapshot: `{state, processHandle}` plus the global
/// closing flag that makes repeated close signals idempotent.
#[derive(Clone, Copy, Debug, PartialEq, Eq)]
pub struct Registry {
    /// The lifecycle state of the single backend slot.
    pub state: SupervisorState,
    /// The handle of the live instance, when one exists.
    pub handle: Option<BackendProcess>,
    /// Set once a close/exit sequence has been confirmed; never cleared,
    /// because the application is on its way out from then on.
    pub closing: bool,
}

impl Registry {
    /// The at-most-one-live-instance invariant: a handle exists exactly
    /// while a process can be running. `Failed` and `ShuttingDown` may hold
    /// a handle (probe timed out, process still up) or not (launch never
    /// produced a process).
    pub open spec fn wf(self) -> bool {
        match self.state {
            SupervisorState::Idle => self.handle is None,
            SupervisorState::Spawning => self.handle is None,
            SupervisorState::Probing => self.handle is Some,
            SupervisorState::Ready => self.handle is Some,
            SupervisorState::Failed => true,
            SupervisorState::ShuttingDown => true,
        }
    }

    /// A fresh registry: idle, no handle, not closing.
    pub fn new() -> (r: Registry)
        ensures
            r == (Registry {
                state: SupervisorState::Idle,
                handle: None::<BackendProcess>,
                closing: false,
            }),
            r.wf(),
    {
        Registry { state: SupervisorState::Idle, handle: None, closing: false }
    }

    /// A spawn may begin only while the slot is idle and no close is
    /// underway.
    pub open spec fn spawn_begin_allowed(self) -> bool {
        self.state is Idle && !self.closing
    }

    /// The registry after `try_spawn_begin`: `Idle` moves to `Spawning`,
    /// every other state is left untouched.
    pub open spec fn spawn_begin_next(self) -> Registry {
        if self.spawn_begin_allowed() {
            Registry { state: SupervisorState::Spawning, ..self }
        } else {
            self
        }
    }

    /// What `try_spawn_begin` replies: permission, or `AlreadyInProgress`.
    pub open spec fn spawn_begin_reply(self) -> Result<(), SupervisorError> {
        if self.spawn_begin_allowed() {
            Ok(())
        } else {
            Err(SupervisorError::AlreadyInProgress)
        }
    }

    /// Atomically grants permission to spawn: `Idle` becomes `Spawning` and
    /// the caller may proceed; any other state (or a close underway) leaves
    /// the registry unchanged and refuses with `AlreadyInProgress`, so two
    /// racing callers can never both spawn.
    pub fn try_spawn_begin(&mut self) -> (r: Result<(), SupervisorError>)
        requires
            old(self).wf(),
        ensures
            *final(self) == old(self).spawn_begin_next(),
            final(self).wf(),
            r == old(self).spawn_begin_reply(),
    {
        if self.state == SupervisorState::Idle && !self.closing {
            self.state = SupervisorState::Spawning;
            Ok(())
        } else {
            Err(SupervisorError::AlreadyInProgress)
        }
    }

    /// Records a successful launch: the slot moves from `Spawning` to
    /// `Probing` and takes ownership of the handle.
    pub fn commit_spawned(&mut self, proc: BackendProcess)
        requires
            old(self).wf(),
            old(self).state is Spawning,
        ensures
            *final(self) == (Registry {
                state: SupervisorState::Probing,
                handle: Some(proc),
                ..*old(self)
            }),
            final(self).wf(),
    {
        self.state = SupervisorState::Probing;
        self.handle = Some(proc);
    }

    /// Records a successful readiness probe: `Probing` becomes `Ready`.
    pub fn mark_ready(&mut self)
        requires
            old(self).wf(),
            old(self).state is Probing,
        ensures
            *final(self) == (Registry { state: SupervisorState::Ready, ..*old(self) }),
            final(self).wf(),
    {
        self.state = SupervisorState::Ready;
    }

    /// Records a terminal startup failure. The handle is kept as it was:
    /// when a process is still running it must remain reachable for the
    /// shutdown sequence to kill.
    pub fn mark_failed(&mut self)
        requires
            old(self).wf(),
            old(self).state is Spawning || old(self).state is Probing || old(self).state is Ready,
        ensures
            *final(self) == (Registry { state: SupervisorState::Failed, ..*old(self) }),
            final(self).wf(),
    {
        self.state = SupervisorState::Failed;
    }

    /// Abandons an in-flight attempt and returns the slot to `Idle`, handing
    /// back the handle (if any) so the caller can kill the process before
    /// the next attempt. Used by the retry loop and by shutdown-cancelling
    /// an in-flight spawn; the caller must not drop a returned handle
    /// without terminating the process, or it leaks.
    pub fn release_to_idle(&mut self) -> (h: Option<BackendProcess>)
        requires
            old(self).wf(),
            old(self).state is Spawning || old(self).state is Probing,
        ensures
            *final(self) == (Registry {
                state: SupervisorState::Idle,
                handle: None::<BackendProcess>,
                ..*old(self)
            }),
            final(self).wf(),
            h == old(self).handle,
    {
        let h = self.handle;
        self.state = SupervisorState::Idle;
        self.handle = None;
        h
    }

    /// Marks that a close/exit sequence has been confirmed. From here on,
    /// `try_spawn_begin` refuses and repeated close signals are ignored.
    pub fn set_closing(&mut self)
        requires
            old(self).wf(),
        ensures
            *final(self) == (Registry { closing: true, ..*old(self) }),
            final(self).wf(),
    {
        self.closing = true;
    }

    /// The registry after `begin_shutdown`: only `Ready` and `Failed` hand
    /// the slot to a shutdown sequence; everything else is left untouched.
    pub open spec fn shutdown_begin_next(self) -> Registry {
        match self.state {
            SupervisorState::Ready => Registry { state: SupervisorState::ShuttingDown, ..self },
            SupervisorState::Failed => Registry { state: SupervisorState::ShuttingDown, ..self },
            _ => self,
        }
    }

    /// What `begin_shutdown` reports for each starting state.
    pub open spec fn shutdown_begin_reply(self) -> ShutdownBegin {
        match self.state {
            SupervisorState::Idle => ShutdownBegin::NotRunning,
            SupervisorState::Spawning => ShutdownBegin::InFlight,
            SupervisorState::Probing => ShutdownBegin::InFlight,
            SupervisorState::Ready => ShutdownBegin::Begun(self.handle),
            SupervisorState::Failed => ShutdownBegin::Begun(self.handle),
            SupervisorState::ShuttingDown => ShutdownBegin::AlreadyStopping,
        }
    }

    /// Claims the slot for termination. From `Ready` or `Failed` the slot
    /// moves to `ShuttingDown` and the current handle is reported for the
    /// caller to terminate; from `Idle` it is a no-op (`NotRunning`); an
    /// in-flight spawn or probe is reported as such and left alone, so a
    /// shutdown can never race a spawn.
    pub fn begin_shutdown(&mut self) -> (r: ShutdownBegin)
        requires
            old(self).wf(),
        ensures
            *final(self) == old(self).shutdown_begin_next(),
            final(self).wf(),
            r == old(self).shutdown_begin_reply(),
    {
        match self.state {
            SupervisorState::Idle => ShutdownBegin::NotRunning,
            SupervisorState::Spawning => ShutdownBegin::InFlight,
            SupervisorState::Probing => ShutdownBegin::InFlight,
            SupervisorState::Ready => {
                self.state = SupervisorState::ShuttingDown;
                ShutdownBegin::Begun(self.handle)
            },
            SupervisorState::Failed => {
                self.state = SupervisorState::ShuttingDown;
                ShutdownBegin::Begun(self.handle)
            },
            SupervisorState::ShuttingDown => ShutdownBegin::AlreadyStopping,
        }
    }

    /// The registry after `complete_shutdown`: idle, with the handle
    /// cleared.
    pub open spec fn shutdown_complete_next(self) -> Registry {
        Registry { state: SupervisorState::Idle, handle: None, ..self }
    }

    /// Ends a shutdown sequence: the process is gone, so the slot returns
    /// to `Idle` and the handle is cleared.
    pub fn complete_shutdown(&mut self)
        requires
            old(self).wf(),
            old(self).state is ShuttingDown,
        ensures
            *final(self) == old(self).shutdown_complete_next(),
            final(self).wf(),
    {
        self.state = SupervisorState::Idle;
        self.handle = None;
    }
}

/// Granting a spawn is exclusive. Two spawn requests arrive concurrently
/// on a quiet idle slot; the registry serializes them, and whichever runs
/// first receives permission while the one after it receives
/// `AlreadyInProgress` — exactly one caller may proceed. The second clause
/// holds from every starting state: a request that follows a granted one
/// is always refused.
pub proof fn lemma_spawn_begin_exclusive(r: Registry)
    requires
        r.wf(),
    ensures
        r.state is Idle && !r.closing ==> r.spawn_begin_reply() == Ok::<(), SupervisorError>(()),
        r.spawn_begin_allowed() ==> r.spawn_begin_next().spawn_begin_reply() == Err::<
            (),
            SupervisorError,
        >(SupervisorError::AlreadyInProgress),
{
}

/// A completed shutdown leaves an idle, handle-free registry, and a second
/// shutdown on it is a no-op: `begin_shutdown` reports `NotRunning` and
/// changes nothing.
pub proof fn lemma_shutdown_idempotent(r: Registry)
    requires
        r.wf(),
        r.state is ShuttingDown,
    ensures
        r.shutdown_complete_next().state is Idle,
        r.shutdown_complete_next().handle is None,
        r.shutdown_complete_next().shutdown_begin_reply() == ShutdownBegin::NotRunning,
        r.shutdown_complete_next().shutdown_begin_next() == r.shutdown_complete_next(),
{
}

} // verus!
