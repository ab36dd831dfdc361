//! The lifecycle coordinator: one parameterized state machine driving
//! launch, readiness probing and bounded retry for the backend slot.
//!
//! The coordinator owns the process registry and decides; the shell
//! performs. Each call to [`Coordinator::step`] consumes one event the
//! shell observed (a spawn tick, a launch outcome, a probe outcome) and
//! returns the one action the shell must perform next. The machine walks
//! `Idle → Spawning → Probing → Ready`, loops back to `Idle` on a retry,
//! and settles in `Failed` once the spawn budget is exhausted.
//!
//! The module also carries the machine's central theorem: against a
//! backend that never becomes reachable, the coordinator launches exactly
//! `max_spawn_attempts` times and then fails — never fewer, never more.

use vstd::prelude::*;

use crate::registry::Registry;
use crate::state::BackendProcess;
use crate::state::SupervisorError;
use crate::state::SupervisorState;
use crate::text::ready_url;
use crate::text::ready_url_chars;

verus! {

/// The configuration one startup cycle runs with.
#[derive(Clone, Copy, Debug, PartialEq, Eq, Structural)]
pub struct RetryConfig {
    /// How many spawns may be attempted before the cycle fails.
    pub max_spawn_attempts: u32,
    /// How many readiness probes each spawned instance is granted.
    pub probe_max_attempts: u32,
    /// Sleep between two readiness probes, in milliseconds.
    pub probe_interval_ms: u64,
    /// Sleep before the next spawn attempt after a failed one.
    pub retry_delay_ms: u64,
    /// The port the backend is told to listen on.
    pub port: u16,
}

impl RetryConfig {
    /// Both budgets must grant at least one attempt.
    pub open spec fn wf(self) -> bool {
        self.max_spawn_attempts >= 1 && self.probe_max_attempts >= 1
    }
}

/// One event the shell observed and feeds to the coordinator.
#[derive(Clone, Copy, Debug, PartialEq, Eq, Structural)]
pub enum CoordEvent {
    /// The startup task (or the retry timer) asks to begin a spawn.
    SpawnTick,
    /// The launcher created the process described by the payload.
    Launched(BackendProcess),
    /// The launcher could not create a process, for the given reason.
    LaunchFailed(SupervisorError),
    /// One readiness probe finished; the payload says whether the
    /// connection to the backend's port succeeded.
    ProbeTick(bool),
}

/// The diagnostic payload surfaced to the front-end when a startup cycle
/// fails terminally: not a bare error, but what a user report needs. The
/// shell adds what only it has (output-stream excerpts, elapsed time).
#[derive(Clone, Copy, Debug, PartialEq, Eq, Structural)]
pub struct FailureDiagnostics {
    /// The error that ended the cycle.
    pub error: SupervisorError,
    /// The port the backend was asked to serve.
    pub port: u16,
    /// How many launches the cycle was granted before giving up.
    pub launches: u32,
}

/// The one action the shell must perform after a step.
#[derive(Clone, Debug, PartialEq, Eq)]
pub enum CoordAction {
    /// Launch the backend executable and report `Launched`/`LaunchFailed`.
    DoLaunch,
    /// Attempt one TCP connection to `127.0.0.1:port` after sleeping
    /// `delay_ms`, and report the outcome as `ProbeTick`.
    DoProbe { port: u16, delay_ms: u64 },
    /// The launch failed but budget remains: sleep `delay_ms`, then send
    /// `SpawnTick` again.
    RetryLaunch { delay_ms: u64 },
    /// The probe budget for this instance is spent but spawn budget
    /// remains: kill the process tree of `pid`, sleep `delay_ms`, then send
    /// `SpawnTick` again.
    KillAndRetry { pid: u32, delay_ms: u64 },
    /// The backend is ready: switch the front-end to the live view at
    /// `url`.
    NotifyReady { url: String },
    /// The cycle failed terminally: surface the diagnostics to the
    /// front-end.
    NotifyFailed { diagnostics: FailureDiagnostics },
    /// The event does not apply in the current state; do nothing. This is
    /// how a duplicate spawn request and a stale outcome are dropped.
    Ignore,
}

/// The lifecycle coordinator: the registry it owns, the configuration, and
/// the retry bookkeeping for the current startup cycle.
#[derive(Clone, Copy, Debug, PartialEq, Eq)]
pub struct Coordinator {
    /// The configuration of this startup cycle.
    pub cfg: RetryConfig,
    /// The process registry: the single source of truth for the slot.
    pub reg: Registry,
    /// How many spawns have been granted in this cycle.
    pub launches: u32,
    /// How many probes have failed for the instance being probed.
    pub probe_failures: u32,
}

impl Coordinator {
    /// The machine's invariant: the registry is consistent, both counters
    /// respect their budgets, and while probing there is budget left for
    /// the probe that is in flight.
    pub open spec fn wf(self) -> bool {
        &&& self.cfg.wf()
        &&& self.reg.wf()
        &&& self.launches <= self.cfg.max_spawn_attempts
        &&& self.probe_failures <= self.cfg.probe_max_attempts
        &&& (self.reg.state is Probing ==> self.probe_failures < self.cfg.probe_max_attempts)
    }

    /// The coordinator a fresh cycle starts from: idle registry, nothing
    /// consumed.
    pub open spec fn initial_spec(cfg: RetryConfig) -> Coordinator {
        Coordinator {
            cfg,
            reg: Registry { state: SupervisorState::Idle, handle: None, closing: false },
            launches: 0,
            probe_failures: 0,
        }
    }

    /// A fresh coordinator for one startup cycle.
    pub fn new(cfg: RetryConfig) -> (c: Coordinator)
        requires
            cfg.wf(),
        ensures
            c == Self::initial_spec(cfg),
            c.wf(),
    {
        Coordinator { cfg, reg: Registry::new(), launches: 0, probe_failures: 0 }
    }

    /// A spawn tick is honored only while the slot is idle, no close is
    /// underway, and spawn budget remains.
    pub open spec fn spawn_tick_allowed(self) -> bool {
        self.reg.spawn_begin_allowed() && self.launches < self.cfg.max_spawn_attempts
    }

    /// The machine's transition function: the coordinator after consuming
    /// `ev`. Events that do not apply in the current state change nothing.
    pub open spec fn step_spec(self, ev: CoordEvent) -> Coordinator {
        match ev {
            CoordEvent::SpawnTick => if self.spawn_tick_allowed() {
                Coordinator {
                    reg: Registry { state: SupervisorState::Spawning, ..self.reg },
                    launches: (self.launches + 1) as u32,
                    ..self
                }
            } else {
                self
            },
            CoordEvent::Launched(p) => if self.reg.state is Spawning {
                Coordinator {
                    reg: Registry { state: SupervisorState::Probing, handle: Some(p), ..self.reg },
                    probe_failures: 0,
                    ..self
                }
            } else {
                self
            },
            CoordEvent::LaunchFailed(_) => if self.reg.state is Spawning {
                if self.launches < self.cfg.max_spawn_attempts {
                    Coordinator {
                        reg: Registry { state: SupervisorState::Idle, handle: None, ..self.reg },
                        ..self
                    }
                } else {
                    Coordinator { reg: Registry { state: SupervisorState::Failed, ..self.reg }, ..self }
                }
            } else {
                self
            },
            CoordEvent::ProbeTick(connected) => if self.reg.state is Probing {
                if connected {
                    Coordinator { reg: Registry { state: SupervisorState::Ready, ..self.reg }, ..self }
                } else if self.probe_failures + 1 < self.cfg.probe_max_attempts {
                    Coordinator { probe_failures: (self.probe_failures + 1) as u32, ..self }
                } else if self.launches < self.cfg.max_spawn_attempts {
                    Coordinator {
                        reg: Registry { state: SupervisorState::Idle, handle: None, ..self.reg },
                        probe_failures: (self.probe_failures + 1) as u32,
                        ..self
                    }
                } else {
                    Coordinator {
                        reg: Registry { state: SupervisorState::Failed, ..self.reg },
                        probe_failures: (self.probe_failures + 1) as u32,
                        ..self
                    }
                }
            } else {
                self
            },
        }
    }

    /// The action [`Self::step`] must return for a given pre-state and
    /// event: exactly one action fits each case.
    pub open spec fn step_action_ok(pre: Coordinator, ev: CoordEvent, a: CoordAction) -> bool {
        match ev {
            CoordEvent::SpawnTick => if pre.spawn_tick_allowed() {
                a is DoLaunch
            } else {
                a is Ignore
            },
            CoordEvent::Launched(p) => if pre.reg.state is Spawning {
                a == (CoordAction::DoProbe { port: p.port, delay_ms: pre.cfg.probe_interval_ms })
            } else {
                a is Ignore
            },
            CoordEvent::LaunchFailed(e) => if pre.reg.state is Spawning {
                if pre.launches < pre.cfg.max_spawn_attempts {
                    a == (CoordAction::RetryLaunch { delay_ms: pre.cfg.retry_delay_ms })
                } else {
                    a == (CoordAction::NotifyFailed {
                        diagnostics: FailureDiagnostics {
                            error: e,
                            port: pre.cfg.port,
                            launches: pre.launches,
                        },
                    })
                }
            } else {
                a is Ignore
            },
            CoordEvent::ProbeTick(connected) => if pre.reg.state is Probing {
                if connected {
                    a matches CoordAction::NotifyReady { url } && url@ == ready_url_chars(
                        pre.reg.handle->0.port,
                    )
                } else if pre.probe_failures + 1 < pre.cfg.probe_max_attempts {
                    a == (CoordAction::DoProbe {
                        port: pre.reg.handle->0.port,
                        delay_ms: pre.cfg.probe_interval_ms,
                    })
                } else if pre.launches < pre.cfg.max_spawn_attempts {
                    a == (CoordAction::KillAndRetry {
                        pid: pre.reg.handle->0.pid,
                        delay_ms: pre.cfg.retry_delay_ms,
                    })
                } else {
                    a == (CoordAction::NotifyFailed {
                        diagnostics: FailureDiagnostics {
                            error: SupervisorError::ProbeTimeout,
                            port: pre.reg.handle->0.port,
                            launches: pre.launches,
                        },
                    })
                }
            } else {
                a is Ignore
            },
        }
    }

    /// Consumes one observed event and returns the action the shell must
    /// perform. The new state is exactly [`Self::step_spec`] and the action
    /// exactly [`Self::step_action_ok`]; in particular a `SpawnTick` while
    /// a spawn is underway is ignored, so no duplicate spawn can start, and
    /// the launch granted by an honored tick is counted before the shell
    /// hears `DoLaunch`.
    pub fn step(&mut self, ev: CoordEvent) -> (a: CoordAction)
        requires
            old(self).wf(),
        ensures
            final(self).wf(),
            *final(self) == old(self).step_spec(ev),
            Self::step_action_ok(*old(self), ev, a),
    {
        match ev {
            CoordEvent::SpawnTick => {
                if self.reg.state == SupervisorState::Idle && !self.reg.closing && self.launches
                    < self.cfg.max_spawn_attempts {
                    let _ = self.reg.try_spawn_begin();
                    self.launches = self.launches + 1;
                    CoordAction::DoLaunch
                } else {
                    CoordAction::Ignore
                }
            },
            CoordEvent::Launched(p) => {
                if self.reg.state == SupervisorState::Spawning {
                    self.reg.commit_spawned(p);
                    self.probe_failures = 0;
                    CoordAction::DoProbe { port: p.port, delay_ms: self.cfg.probe_interval_ms }
                } else {
                    CoordAction::Ignore
                }
            },
            CoordEvent::LaunchFailed(e) => {
                if self.reg.state == SupervisorState::Spawning {
                    if self.launches < self.cfg.max_spawn_attempts {
                        let _ = self.reg.release_to_idle();
                        CoordAction::RetryLaunch { delay_ms: self.cfg.retry_delay_ms }
                    } else {
                        self.reg.mark_failed();
                        CoordAction::NotifyFailed {
                            diagnostics: FailureDiagnostics {
                                error: e,
                                port: self.cfg.port,
                                launches: self.launches,
                            },
                        }
                    }
                } else {
                    CoordAction::Ignore
                }
            },
            CoordEvent::ProbeTick(connected) => {
                if self.reg.state == SupervisorState::Probing {
                    let live = self.reg.handle.unwrap();
                    if connected {
                        self.reg.mark_ready();
                        CoordAction::NotifyReady { url: ready_url(live.port) }
                    } else {
                        self.probe_failures = self.probe_failures + 1;
                        if self.probe_failures < self.cfg.probe_max_attempts {
                            CoordAction::DoProbe {
                                port: live.port,
                                delay_ms: self.cfg.probe_interval_ms,
                            }
                        } else if self.launches < self.cfg.max_spawn_attempts {
                            let _ = self.reg.release_to_idle();
                            CoordAction::KillAndRetry {
                                pid: live.pid,
                                delay_ms: self.cfg.retry_delay_ms,
                            }
                        } else {
                            self.reg.mark_failed();
                            CoordAction::NotifyFailed {
                                diagnostics: FailureDiagnostics {
                                    error: SupervisorError::ProbeTimeout,
                                    port: live.port,
                                    launches: self.launches,
                                },
                            }
                        }
                    }
                } else {
                    CoordAction::Ignore
                }
            },
        }
    }

    /// Resets the retry bookkeeping so the idle slot can be started again,
    /// for example after a completed shutdown.
    pub fn begin_new_cycle(&mut self)
        requires
            old(self).wf(),
            old(self).reg.state is Idle,
        ensures
            *final(self) == (Coordinator { launches: 0u32, probe_failures: 0u32, ..*old(self) }),
            final(self).wf(),
    {
        self.launches = 0;
        self.probe_failures = 0;
    }
}

/// The event an environment whose backend never becomes reachable answers
/// with: every launch succeeds, every readiness probe fails, and the retry
/// timer always ticks.
pub open spec fn unreachable_event(c: Coordinator) -> CoordEvent {
    if c.reg.state is Spawning {
        CoordEvent::Launched(BackendProcess { pid: 0, port: c.cfg.port, spawn_time_ms: 0 })
    } else if c.reg.state is Probing {
        CoordEvent::ProbeTick(false)
    } else {
        CoordEvent::SpawnTick
    }
}

/// One coordinator step against the never-reachable environment.
pub open spec fn unreachable_step(c: Coordinator) -> Coordinator {
    c.step_spec(unreachable_event(c))
}

/// `fuel` coordinator steps against the never-reachable environment.
pub open spec fn run_unreachable(c: Coordinator, fuel: nat) -> Coordinator
    decreases fuel,
{
    if fuel == 0 {
        c
    } else {
        run_unreachable(unreachable_step(c), (fuel - 1) as nat)
    }
}

/// Steps one full spawn attempt takes against the never-reachable
/// environment: the tick, the launch, and every probe of the budget.
pub open spec fn cycle_len(cfg: RetryConfig) -> nat {
    (cfg.probe_max_attempts + 2) as nat
}

/// `cycles * per`, written as a recursion so every lemma about it stays in
/// linear arithmetic.
pub open spec fn cycles_fuel(cycles: nat, per: nat) -> nat
    decreases cycles,
{
    if cycles == 0 {
        0
    } else {
        per + cycles_fuel((cycles - 1) as nat, per)
    }
}

/// The steps a whole startup cycle takes against the never-reachable
/// environment before the coordinator settles in `Failed`.
pub open spec fn unreachable_fuel(cfg: RetryConfig) -> nat {
    cycles_fuel(cfg.max_spawn_attempts as nat, cycle_len(cfg))
}

/// Every step preserves the coordinator's invariant, whatever the event.
pub proof fn lemma_step_spec_preserves_wf(c: Coordinator, ev: CoordEvent)
    requires
        c.wf(),
    ensures
        c.step_spec(ev).wf(),
{
}

/// The never-reachable run keeps the invariant at every length; in
/// particular the number of granted launches never exceeds the configured
/// budget, at any point of the run.
pub proof fn lemma_run_unreachable_wf(c: Coordinator, fuel: nat)
    requires
        c.wf(),
    ensures
        run_unreachable(c, fuel).wf(),
    decreases fuel,
{
    if fuel > 0 {
        lemma_step_spec_preserves_wf(c, unreachable_event(c));
        lemma_run_unreachable_wf(unreachable_step(c), (fuel - 1) as nat);
    }
}

/// Running `a + b` steps is running `a` steps, then `b` more.
proof fn lemma_run_unreachable_add(c: Coordinator, a: nat, b: nat)
    ensures
        run_unreachable(c, a + b) == run_unreachable(run_unreachable(c, a), b),
    decreases a,
{
    if a > 0 {
        lemma_run_unreachable_add(unreachable_step(c), (a - 1) as nat, b);
    }
}

/// Once the coordinator has failed, the never-reachable run no longer
/// moves it: every further spawn tick is refused.
pub proof fn lemma_failed_absorbing(c: Coordinator, fuel: nat)
    requires
        c.reg.state is Failed,
    ensures
        run_unreachable(c, fuel) == c,
    decreases fuel,
{
    if fuel > 0 {
        lemma_failed_absorbing(c, (fuel - 1) as nat);
    }
}

/// From `Probing`, the remaining probe budget is consumed one failure at a
/// time; the attempt then either releases the slot for a retry or, with
/// the spawn budget spent, fails the cycle. The launch count does not move.
proof fn lemma_probing_exhausts(c: Coordinator)
    requires
        c.wf(),
        c.reg.state is Probing,
        !c.reg.closing,
    ensures
        ({
            let end = run_unreachable(c, (c.cfg.probe_max_attempts - c.probe_failures) as nat);
            &&& end.cfg == c.cfg
            &&& end.launches == c.launches
            &&& !end.reg.closing
            &&& (if c.launches < c.cfg.max_spawn_attempts {
                end.reg.state is Idle && end.reg.handle is None
            } else {
                end.reg.state is Failed
            })
            &&& end.wf()
        }),
    decreases c.cfg.probe_max_attempts - c.probe_failures,
{
    let remaining = (c.cfg.probe_max_attempts - c.probe_failures) as nat;
    let next = unreachable_step(c);
    lemma_step_spec_preserves_wf(c, unreachable_event(c));
    assert(remaining >= 1);
    assert(run_unreachable(c, remaining) == run_unreachable(next, (remaining - 1) as nat));
    if c.probe_failures + 1 < c.cfg.probe_max_attempts {
        lemma_probing_exhausts(next);
    } else {
        assert(run_unreachable(next, 0) == next);
    }
}

/// One full spawn attempt from an idle slot against the never-reachable
/// environment: the launch count rises by exactly one, and the slot is
/// idle again for the next attempt — or failed, when that launch was the
/// last of the budget.
proof fn lemma_idle_cycle(c: Coordinator)
    requires
        c.wf(),
        c.reg.state is Idle,
        !c.reg.closing,
        c.launches < c.cfg.max_spawn_attempts,
    ensures
        ({
            let end = run_unreachable(c, cycle_len(c.cfg));
            &&& end.cfg == c.cfg
            &&& end.launches == c.launches + 1
            &&& !end.reg.closing
            &&& (if c.launches + 1 < c.cfg.max_spawn_attempts {
                end.reg.state is Idle && end.reg.handle is None
            } else {
                end.reg.state is Failed
            })
            &&& end.wf()
        }),
{
    let spawned = unreachable_step(c);
    let probing = unreachable_step(spawned);
    lemma_step_spec_preserves_wf(c, unreachable_event(c));
    lemma_step_spec_preserves_wf(spawned, unreachable_event(spawned));
    assert(run_unreachable(c, 2) == run_unreachable(spawned, 1));
    assert(run_unreachable(spawned, 1) == run_unreachable(probing, 0));
    assert(run_unreachable(probing, 0) == probing);
    lemma_run_unreachable_add(c, 2, c.cfg.probe_max_attempts as nat);
    lemma_probing_exhausts(probing);
}

/// From an idle slot with remaining budget, the never-reachable run spends
/// the whole remaining spawn budget and settles in `Failed`.
proof fn lemma_unreachable_from_idle(c: Coordinator)
    requires
        c.wf(),
        c.reg.state is Idle,
        !c.reg.closing,
        c.launches < c.cfg.max_spawn_attempts,
    ensures
        ({
            let fuel = cycles_fuel((c.cfg.max_spawn_attempts - c.launches) as nat, cycle_len(c.cfg));
            let end = run_unreachable(c, fuel);
            &&& end.reg.state is Failed
            &&& end.launches == c.cfg.max_spawn_attempts
        }),
    decreases c.cfg.max_spawn_attempts - c.launches,
{
    let remaining = (c.cfg.max_spawn_attempts - c.launches) as nat;
    let rest = cycles_fuel((remaining - 1) as nat, cycle_len(c.cfg));
    lemma_run_unreachable_add(c, cycle_len(c.cfg), rest);
    lemma_idle_cycle(c);
    let mid = run_unreachable(c, cycle_len(c.cfg));
    if c.launches + 1 < c.cfg.max_spawn_attempts {
        lemma_unreachable_from_idle(mid);
    } else {
        lemma_failed_absorbing(mid, rest);
    }
}

/// The bounded-retry law: for every configured spawn budget of at least
/// one attempt, if the backend never becomes reachable — every launch
/// succeeds but no readiness probe ever connects — the coordinator grants
/// exactly `max_spawn_attempts` launches and then settles in `Failed`.
/// Together with [`lemma_run_unreachable_wf`] (the launch count never
/// exceeds the budget at any point) and [`lemma_failed_absorbing`] (no
/// further launch is granted after the failure), the spawn count of the
/// whole run is exactly the configured budget.
pub proof fn lemma_unreachable_spawns_exactly_budget(cfg: RetryConfig)
    requires
        cfg.wf(),
    ensures
        ({
            let end = run_unreachable(Coordinator::initial_spec(cfg), unreachable_fuel(cfg));
            &&& end.reg.state is Failed
            &&& end.launches == cfg.max_spawn_attempts
        }),
{
    lemma_unreachable_from_idle(Coordinator::initial_spec(cfg));
}

} // verus!

