//! The shutdown negotiator: a user-initiated close and an application
//! exit funnel into one verified sequence.
//!
//! The shell intercepts the close, shows the confirmation prompt, issues
//! the graceful-shutdown request, kills the process tree and finally lets
//! the window close; the negotiator decides each of those steps. The
//! sequence is: confirm (user path only), claim the slot from the
//! registry, request graceful shutdown when the backend offers one, then
//! force-kill regardless of the graceful outcome, and only then release
//! the slot and let the close proceed — so no process is ever orphaned
//! behind a closed window.

use vstd::prelude::*;

use crate::registry::Registry;
use crate::registry::ShutdownBegin;

verus! {

/// Where the negotiator stands in its sequence.
#[derive(Clone, Copy, Debug, PartialEq, Eq, Structural)]
pub enum ClosePhase {
    /// No close is underway.
    Inactive,
    /// The confirmation prompt is on screen.
    AwaitingConfirm,
    /// A spawn or probe is in flight; the slot is claimed as soon as the
    /// coordinator settles.
    AwaitingSettle,
    /// The graceful-shutdown request is out, its deadline running.
    AwaitingGraceful,
    /// The force kill was ordered; waiting for the process to be gone.
    AwaitingKill,
}

/// One event the shell feeds to the negotiator.
#[derive(Clone, Copy, Debug, PartialEq, Eq, Structural)]
pub enum CloseEvent {
    /// A close was requested: by the user closing the window
    /// (`user_initiated`), or by an application-wide exit.
    CloseSignal { user_initiated: bool },
    /// The user answered the confirmation prompt.
    ConfirmResult(bool),
    /// The in-flight spawn or probe has settled; the registry can be
    /// consulted again.
    RegistrySettled,
    /// The backend acknowledged the graceful-shutdown request.
    GracefulAck,
    /// The graceful-shutdown deadline passed without acknowledgement.
    /// Recovered locally by the forced kill; never a user-visible error.
    GracefulTimeout,
    /// The process (tree) has been killed and reaped.
    ProcessGone,
}

/// The one action the shell must perform after a negotiator step.
#[derive(Clone, Copy, Debug, PartialEq, Eq, Structural)]
pub enum CloseAction {
    /// Keep the window open and show the blocking confirmation prompt.
    PromptUser,
    /// Send the backend its graceful-shutdown request and report
    /// `GracefulAck` or, after `deadline_ms`, `GracefulTimeout`.
    RequestGraceful { port: u16, deadline_ms: u64 },
    /// Kill the process tree of `pid`, wait for it to exit, then report
    /// `ProcessGone`.
    ForceKill { pid: u32 },
    /// Wait for the coordinator to settle, then report `RegistrySettled`.
    WaitForSettle,
    /// The sequence is complete: let the intercepted close/exit proceed.
    FinishClose,
    /// The user declined: abort the close entirely, the window stays open.
    CancelClose,
    /// The event does not apply; do nothing. Repeated close signals while
    /// a close is underway land here.
    Ignore,
}

/// The shutdown negotiator's own state, alongside the shared registry.
#[derive(Clone, Copy, Debug, PartialEq, Eq, Structural)]
pub struct ShutdownNegotiator {
    /// Where the negotiator stands.
    pub phase: ClosePhase,
    /// Whether the backend offers a graceful-shutdown endpoint.
    pub use_graceful: bool,
    /// How long to wait for a graceful acknowledgement, in milliseconds.
    pub graceful_deadline_ms: u64,
    /// Whether the current sequence issued a graceful-shutdown request.
    pub graceful_attempted: bool,
}

impl ShutdownNegotiator {
    /// A fresh negotiator for a backend that may or may not offer a
    /// graceful-shutdown endpoint.
    pub fn new(use_graceful: bool, graceful_deadline_ms: u64) -> (n: ShutdownNegotiator)
        ensures
            n == (ShutdownNegotiator {
                phase: ClosePhase::Inactive,
                use_graceful,
                graceful_deadline_ms,
                graceful_attempted: false,
            }),
    {
        ShutdownNegotiator {
            phase: ClosePhase::Inactive,
            use_graceful,
            graceful_deadline_ms,
            graceful_attempted: false,
        }
    }

    /// How the negotiator's phase must agree with the registry it works
    /// on: while it terminates an instance the slot is claimed and the
    /// handle it kills is present, and from the moment a close was
    /// confirmed the closing flag is up.
    pub open spec fn wf_with(self, r: Registry) -> bool {
        &&& (self.phase is AwaitingGraceful ==> r.state is ShuttingDown && r.handle is Some
            && r.closing)
        &&& (self.phase is AwaitingKill ==> r.state is ShuttingDown && r.handle is Some
            && r.closing)
        &&& (self.phase is AwaitingSettle ==> r.closing)
    }

    /// The negotiator and registry after the slot is claimed for
    /// termination (the registry's closing flag is already up). An idle
    /// slot finishes at once; an in-flight spawn is waited for; a claimed
    /// instance proceeds to the graceful request or straight to the kill;
    /// a failed slot without a process is released immediately.
    pub open spec fn terminate_spec(n: ShutdownNegotiator, r: Registry) -> (
        ShutdownNegotiator,
        Registry,
    ) {
        match r.shutdown_begin_reply() {
            ShutdownBegin::NotRunning => (
                ShutdownNegotiator { phase: ClosePhase::Inactive, ..n },
                r,
            ),
            ShutdownBegin::AlreadyStopping => (n, r),
            ShutdownBegin::InFlight => (
                ShutdownNegotiator { phase: ClosePhase::AwaitingSettle, ..n },
                r,
            ),
            ShutdownBegin::Begun(h) => match h {
                Some(_) => if n.use_graceful {
                    (
                        ShutdownNegotiator {
                            phase: ClosePhase::AwaitingGraceful,
                            graceful_attempted: true,
                            ..n
                        },
                        r.shutdown_begin_next(),
                    )
                } else {
                    (
                        ShutdownNegotiator { phase: ClosePhase::AwaitingKill, ..n },
                        r.shutdown_begin_next(),
                    )
                },
                None => (
                    ShutdownNegotiator { phase: ClosePhase::Inactive, ..n },
                    r.shutdown_begin_next().shutdown_complete_next(),
                ),
            },
        }
    }

    /// The action termination must order for each registry snapshot.
    pub open spec fn terminate_action_ok(n: ShutdownNegotiator, r: Registry, a: CloseAction) -> bool {
        match r.shutdown_begin_reply() {
            ShutdownBegin::NotRunning => a is FinishClose,
            ShutdownBegin::AlreadyStopping => a is Ignore,
            ShutdownBegin::InFlight => a is WaitForSettle,
            ShutdownBegin::Begun(h) => match h {
                Some(p) => if n.use_graceful {
                    a == (CloseAction::RequestGraceful {
                        port: p.port,
                        deadline_ms: n.graceful_deadline_ms,
                    })
                } else {
                    a == (CloseAction::ForceKill { pid: p.pid })
                },
                None => a is FinishClose,
            },
        }
    }

    /// Claims the slot and orders the next termination step; the behavior
    /// is exactly [`Self::terminate_spec`] and [`Self::terminate_action_ok`].
    fn terminate(&mut self, reg: &mut Registry) -> (a: CloseAction)
        requires
            old(reg).wf(),
            old(reg).closing,
            old(self).phase is Inactive || old(self).phase is AwaitingConfirm || old(
                self,
            ).phase is AwaitingSettle,
        ensures
            (*final(self), *final(reg)) == Self::terminate_spec(*old(self), *old(reg)),
            Self::terminate_action_ok(*old(self), *old(reg), a),
            final(reg).wf(),
            final(self).wf_with(*final(reg)),
    {
        match reg.begin_shutdown() {
            ShutdownBegin::NotRunning => {
                self.phase = ClosePhase::Inactive;
                CloseAction::FinishClose
            },
            ShutdownBegin::AlreadyStopping => CloseAction::Ignore,
            ShutdownBegin::InFlight => {
                self.phase = ClosePhase::AwaitingSettle;
                CloseAction::WaitForSettle
            },
            ShutdownBegin::Begun(Some(p)) => {
                if self.use_graceful {
                    self.phase = ClosePhase::AwaitingGraceful;
                    self.graceful_attempted = true;
                    CloseAction::RequestGraceful {
                        port: p.port,
                        deadline_ms: self.graceful_deadline_ms,
                    }
                } else {
                    self.phase = ClosePhase::AwaitingKill;
                    CloseAction::ForceKill { pid: p.pid }
                }
            },
            ShutdownBegin::Begun(None) => {
                reg.complete_shutdown();
                self.phase = ClosePhase::Inactive;
                CloseAction::FinishClose
            },
        }
    }

    /// The negotiator and registry after consuming `ev`; the meaning of
    /// [`Self::on_event`].
    pub open spec fn event_spec(n: ShutdownNegotiator, r: Registry, ev: CloseEvent) -> (
        ShutdownNegotiator,
        Registry,
    ) {
        match ev {
            CloseEvent::CloseSignal { user_initiated } => if user_initiated {
                if n.phase is Inactive && !r.closing {
                    (
                        ShutdownNegotiator {
                            phase: ClosePhase::AwaitingConfirm,
                            graceful_attempted: false,
                            ..n
                        },
                        r,
                    )
                } else {
                    (n, r)
                }
            } else {
                if (n.phase is Inactive || n.phase is AwaitingConfirm) && !r.closing {
                    Self::terminate_spec(
                        ShutdownNegotiator { graceful_attempted: false, ..n },
                        Registry { closing: true, ..r },
                    )
                } else {
                    (n, r)
                }
            },
            CloseEvent::ConfirmResult(confirmed) => if n.phase is AwaitingConfirm {
                if confirmed {
                    Self::terminate_spec(n, Registry { closing: true, ..r })
                } else {
                    (ShutdownNegotiator { phase: ClosePhase::Inactive, ..n }, r)
                }
            } else {
                (n, r)
            },
            CloseEvent::RegistrySettled => if n.phase is AwaitingSettle {
                Self::terminate_spec(n, r)
            } else {
                (n, r)
            },
            CloseEvent::GracefulAck => if n.phase is AwaitingGraceful {
                (ShutdownNegotiator { phase: ClosePhase::AwaitingKill, ..n }, r)
            } else {
                (n, r)
            },
            CloseEvent::GracefulTimeout => if n.phase is AwaitingGraceful {
                (ShutdownNegotiator { phase: ClosePhase::AwaitingKill, ..n }, r)
            } else {
                (n, r)
            },
            CloseEvent::ProcessGone => if n.phase is AwaitingKill {
                (
                    ShutdownNegotiator { phase: ClosePhase::Inactive, ..n },
                    r.shutdown_complete_next(),
                )
            } else {
                (n, r)
            },
        }
    }

    /// The action [`Self::on_event`] must return for each pre-state and
    /// event.
    pub open spec fn event_action_ok(
        n: ShutdownNegotiator,
        r: Registry,
        ev: CloseEvent,
        a: CloseAction,
    ) -> bool {
        match ev {
            CloseEvent::CloseSignal { user_initiated } => if user_initiated {
                if n.phase is Inactive && !r.closing {
                    a is PromptUser
                } else {
                    a is Ignore
                }
            } else {
                if (n.phase is Inactive || n.phase is AwaitingConfirm) && !r.closing {
                    Self::terminate_action_ok(
                        ShutdownNegotiator { graceful_attempted: false, ..n },
                        Registry { closing: true, ..r },
                        a,
                    )
                } else {
                    a is Ignore
                }
            },
            CloseEvent::ConfirmResult(confirmed) => if n.phase is AwaitingConfirm {
                if confirmed {
                    Self::terminate_action_ok(n, Registry { closing: true, ..r }, a)
                } else {
                    a is CancelClose
                }
            } else {
                a is Ignore
            },
            CloseEvent::RegistrySettled => if n.phase is AwaitingSettle {
                Self::terminate_action_ok(n, r, a)
            } else {
                a is Ignore
            },
            CloseEvent::GracefulAck => if n.phase is AwaitingGraceful {
                a == (CloseAction::ForceKill { pid: r.handle->0.pid })
            } else {
                a is Ignore
            },
            CloseEvent::GracefulTimeout => if n.phase is AwaitingGraceful {
                a == (CloseAction::ForceKill { pid: r.handle->0.pid })
            } else {
                a is Ignore
            },
            CloseEvent::ProcessGone => if n.phase is AwaitingKill {
                a is FinishClose
            } else {
                a is Ignore
            },
        }
    }

    /// Consumes one close-related event and orders the shell's next step.
    /// The new states are exactly [`Self::event_spec`] and the action
    /// exactly [`Self::event_action_ok`]. In particular: a second close
    /// signal while a close is underway is ignored; a declined
    /// confirmation changes neither the negotiator's registry nor the
    /// process; and a graceful timeout takes the same kill path as an
    /// acknowledgement.
    pub fn on_event(&mut self, reg: &mut Registry, ev: CloseEvent) -> (a: CloseAction)
        requires
            old(reg).wf(),
            old(self).wf_with(*old(reg)),
        ensures
            (*final(self), *final(reg)) == Self::event_spec(*old(self), *old(reg), ev),
            Self::event_action_ok(*old(self), *old(reg), ev, a),
            final(reg).wf(),
            final(self).wf_with(*final(reg)),
    {
        match ev {
            CloseEvent::CloseSignal { user_initiated } => {
                if user_initiated {
                    if self.phase == ClosePhase::Inactive && !reg.closing {
                        self.phase = ClosePhase::AwaitingConfirm;
                        self.graceful_attempted = false;
                        CloseAction::PromptUser
                    } else {
                        CloseAction::Ignore
                    }
                } else {
                    if (self.phase == ClosePhase::Inactive || self.phase
                        == ClosePhase::AwaitingConfirm) && !reg.closing {
                        self.graceful_attempted = false;
                        reg.set_closing();
                        self.terminate(reg)
                    } else {
                        CloseAction::Ignore
                    }
                }
            },
            CloseEvent::ConfirmResult(confirmed) => {
                if self.phase == ClosePhase::AwaitingConfirm {
                    if confirmed {
                        reg.set_closing();
                        self.terminate(reg)
                    } else {
                        self.phase = ClosePhase::Inactive;
                        CloseAction::CancelClose
                    }
                } else {
                    CloseAction::Ignore
                }
            },
            CloseEvent::RegistrySettled => {
                if self.phase == ClosePhase::AwaitingSettle {
                    self.terminate(reg)
                } else {
                    CloseAction::Ignore
                }
            },
            CloseEvent::GracefulAck => {
                if self.phase == ClosePhase::AwaitingGraceful {
                    let live = reg.handle.unwrap();
                    self.phase = ClosePhase::AwaitingKill;
                    CloseAction::ForceKill { pid: live.pid }
                } else {
                    CloseAction::Ignore
                }
            },
            CloseEvent::GracefulTimeout => {
                if self.phase == ClosePhase::AwaitingGraceful {
                    let live = reg.handle.unwrap();
                    self.phase = ClosePhase::AwaitingKill;
                    CloseAction::ForceKill { pid: live.pid }
                } else {
                    CloseAction::Ignore
                }
            },
            CloseEvent::ProcessGone => {
                if self.phase == ClosePhase::AwaitingKill {
                    reg.complete_shutdown();
                    self.phase = ClosePhase::Inactive;
                    CloseAction::FinishClose
                } else {
                    CloseAction::Ignore
                }
            },
        }
    }
}

/// Once a close sequence is underway (the closing flag is up), every
/// further close signal — another click on the window button, or the exit
/// event arriving on top of a close — changes nothing.
pub proof fn lemma_repeated_close_ignored(n: ShutdownNegotiator, r: Registry, user: bool)
    requires
        r.closing,
    ensures
        ShutdownNegotiator::event_spec(n, r, CloseEvent::CloseSignal { user_initiated: user }) == (
            n,
            r,
        ),
{
}

} // verus!
