//! What the supervisor does with events while it waits: for a demand, for probes, for the end
//! of a cooldown.

use vstd::prelude::*;

use super::admission::MutationEffect;
use super::control::SupervisorControl;
use super::lifecycle::{Nanos, ServerPhase, WakeRequest};

verus! {

/// What can happen while the supervisor waits. Requests of the operator are handled first;
/// the event carries what is left to do.
#[derive(Clone, Copy, Debug, PartialEq, Eq, Structural)]
pub enum SupervisorEvent {
    /// The daemon shuts down.
    Shutdown,
    /// A request of the operator was handled.
    Mutation(MutationEffect),
    /// The wake latch was closed.
    WakeClosed,
    /// A login asks for the server.
    Wake(WakeRequest),
    /// The moment came that the supervisor waited for.
    Deadline,
}

/// What waiting for a demand leads to.
#[derive(Clone, Copy, Debug, PartialEq, Eq, Structural)]
pub enum DemandStep {
    Wait,
    /// Somebody asks for the server.
    Demanded,
    Shutdown,
}

/// Looks for a demand before waiting. A closed latch ends the wait even if it was closed with
/// a demand in it.
pub fn demand_before_waiting(
    control: &mut SupervisorControl,
    shutdown_due: bool,
    latch_closed: bool,
) -> (step: DemandStep)
    ensures
        step == (if shutdown_due {
            DemandStep::Shutdown
        } else if old(control).launch_demand {
            DemandStep::Demanded
        } else if latch_closed {
            DemandStep::Shutdown
        } else {
            DemandStep::Wait
        }),
        *final(control) == (SupervisorControl {
            launch_demand: shutdown_due && old(control).launch_demand,
            ..*old(control)
        }),
{
    if shutdown_due {
        return DemandStep::Shutdown;
    }
    if control.launch_demand {
        control.launch_demand = false;
        return DemandStep::Demanded;
    }
    if latch_closed {
        return DemandStep::Shutdown;
    }
    DemandStep::Wait
}

/// Looks for a demand in an event.
pub fn demand_event(control: &mut SupervisorControl, event: SupervisorEvent) -> (step: DemandStep)
    ensures
        step == (match event {
            SupervisorEvent::Shutdown | SupervisorEvent::WakeClosed => DemandStep::Shutdown,
            SupervisorEvent::Wake(request) => if request.starts(old(control).lifecycle)
                || request.rechecks(old(control).lifecycle) {
                DemandStep::Demanded
            } else {
                DemandStep::Wait
            },
            _ => DemandStep::Wait,
        }),
        *final(control) == (SupervisorControl {
            launch_demand: step != DemandStep::Demanded && old(control).launch_demand,
            ..*old(control)
        }),
{
    match event {
        SupervisorEvent::Shutdown | SupervisorEvent::WakeClosed => DemandStep::Shutdown,
        SupervisorEvent::Wake(request) => {
            let current = control.lifecycle;
            if request.can_start(current) || request.requests_conflict_reconciliation(current) {
                control.launch_demand = false;
                DemandStep::Demanded
            } else {
                DemandStep::Wait
            }
        },
        SupervisorEvent::Mutation(_) | SupervisorEvent::Deadline => DemandStep::Wait,
    }
}

/// What waiting for the probes of a reconciliation leads to.
#[derive(Clone, Copy, Debug, PartialEq, Eq, Structural)]
pub enum ProbeWaitStep {
    /// Wait for the next event.
    Wait,
    /// Take a pending login, if there is one, and look whether the probes are done.
    Drain,
    Shutdown,
}

/// The wait for the probes of a reconciliation. Requests of the operator come before probe
/// results, so after one of them the probes are looked at without waiting.
#[derive(Clone, Copy, Debug, PartialEq, Eq, Structural)]
pub struct ProbeWait {
    pub latch_startup_demand: bool,
    pub mutation_preceded_probe: bool,
}

impl ProbeWait {
    /// The wait at its beginning.
    pub fn new(latch_startup_demand: bool) -> (wait: ProbeWait)
        ensures
            wait == (ProbeWait { latch_startup_demand, mutation_preceded_probe: false }),
    {
        ProbeWait { latch_startup_demand, mutation_preceded_probe: false }
    }

    /// What to do before waiting for an event.
    pub fn before_waiting(&self, shutdown_due: bool) -> (step: ProbeWaitStep)
        ensures
            step == (if shutdown_due {
                ProbeWaitStep::Shutdown
            } else if self.mutation_preceded_probe {
                ProbeWaitStep::Drain
            } else {
                ProbeWaitStep::Wait
            }),
    {
        if shutdown_due {
            ProbeWaitStep::Shutdown
        } else if self.mutation_preceded_probe {
            ProbeWaitStep::Drain
        } else {
            ProbeWaitStep::Wait
        }
    }

    /// Takes what was drained from the latch. With nothing in it, a closed latch ends the wait.
    pub fn drained(
        &self,
        control: &mut SupervisorControl,
        pending: Option<WakeRequest>,
        latch_closed: bool,
    ) -> (step: ProbeWaitStep)
        ensures
            step == (if pending is None && latch_closed {
                ProbeWaitStep::Shutdown
            } else {
                ProbeWaitStep::Wait
            }),
            *final(control) == (match pending {
                Some(request) => latched(*old(control), request, self.latch_startup_demand),
                None => *old(control),
            }),
    {
        match pending {
            Some(request) => {
                let _ = latch_reconciliation_wake(control, request, self.latch_startup_demand);
                ProbeWaitStep::Wait
            },
            None => if latch_closed {
                ProbeWaitStep::Shutdown
            } else {
                ProbeWaitStep::Wait
            },
        }
    }

    /// Takes an event.
    pub fn event(&mut self, control: &mut SupervisorControl, event: SupervisorEvent) -> (step:
        ProbeWaitStep)
        ensures
            step == (if event == SupervisorEvent::Shutdown || event
                == SupervisorEvent::WakeClosed {
                ProbeWaitStep::Shutdown
            } else {
                ProbeWaitStep::Wait
            }),
            *final(self) == (ProbeWait {
                mutation_preceded_probe: old(self).mutation_preceded_probe
                    || event is Mutation,
                ..*old(self)
            }),
            *final(control) == (match event {
                SupervisorEvent::Wake(request) => latched(
                    *old(control),
                    request,
                    old(self).latch_startup_demand,
                ),
                _ => *old(control),
            }),
    {
        match event {
            SupervisorEvent::Shutdown | SupervisorEvent::WakeClosed => ProbeWaitStep::Shutdown,
            SupervisorEvent::Mutation(_) => {
                self.mutation_preceded_probe = true;
                ProbeWaitStep::Wait
            },
            SupervisorEvent::Wake(request) => {
                let _ = latch_reconciliation_wake(control, request, self.latch_startup_demand);
                ProbeWaitStep::Wait
            },
            SupervisorEvent::Deadline => ProbeWaitStep::Wait,
        }
    }
}

/// The state after a login came during a reconciliation: the first reconciliation keeps one
/// that saw it.
pub open spec fn latched(
    control: SupervisorControl,
    request: WakeRequest,
    latch_startup_demand: bool,
) -> SupervisorControl {
    SupervisorControl {
        launch_demand: control.launch_demand || (latch_startup_demand && request.observed
            == control.lifecycle),
        ..control
    }
}

/// Takes a login that came during a reconciliation. Says whether it is the one that is kept.
pub fn latch_reconciliation_wake(
    control: &mut SupervisorControl,
    request: WakeRequest,
    latch_startup_demand: bool,
) -> (kept: bool)
    ensures
        kept == (latch_startup_demand && !old(control).launch_demand && request.observed == old(
            control,
        ).lifecycle),
        *final(control) == latched(*old(control), request, latch_startup_demand),
{
    if latch_startup_demand && !control.launch_demand && request.observed == control.lifecycle {
        control.launch_demand = true;
        true
    } else {
        false
    }
}

/// What a cooldown leads to.
#[derive(Clone, Copy, Debug, PartialEq, Eq, Structural)]
pub enum CooldownOutcome {
    /// It is over and nobody asks for the server.
    Stopped,
    /// It is over and somebody asks for the server.
    Launch,
    Shutdown,
}

/// Begins to wait for the end of a cooldown.
pub fn cooldown_begin(control: &mut SupervisorControl, retry_pending: bool)
    ensures
        *final(control) == (SupervisorControl {
            launch_demand: old(control).launch_demand || retry_pending,
            ..*old(control)
        }),
{
    control.launch_demand = control.launch_demand || retry_pending;
}

/// Ends the cooldown if a shutdown is due.
pub fn cooldown_shutdown(control: &mut SupervisorControl, shutdown_due: bool, now: Nanos) -> (outcome:
    Option<CooldownOutcome>)
    requires
        old(control).unencumbered(),
        old(control).valid(),
    ensures
        final(control).valid(),
        final(control).lifecycle.may_follow(old(control).lifecycle),
        outcome == (if shutdown_due {
            Some(CooldownOutcome::Shutdown)
        } else {
            None
        }),
        *final(control) == (if shutdown_due {
            old(control).phase_set(ServerPhase::Stopped, now)
        } else {
            *old(control)
        }),
{
    if shutdown_due {
        control.set_phase(ServerPhase::Stopped, now);
        Some(CooldownOutcome::Shutdown)
    } else {
        None
    }
}

/// Ends the cooldown if its time has come.
pub fn cooldown_elapsed(control: &mut SupervisorControl, retry_at: Nanos, now: Nanos) -> (outcome:
    Option<CooldownOutcome>)
    requires
        old(control).unencumbered(),
        old(control).valid(),
    ensures
        final(control).valid(),
        final(control).lifecycle.may_follow(old(control).lifecycle),
        outcome == (if now < retry_at {
            None
        } else if old(control).launch_demand {
            Some(CooldownOutcome::Launch)
        } else {
            Some(CooldownOutcome::Stopped)
        }),
        *final(control) == (if now < retry_at {
            *old(control)
        } else if old(control).launch_demand {
            SupervisorControl { launch_demand: false, ..*old(control) }
        } else {
            old(control).phase_set(ServerPhase::Stopped, now)
        }),
{
    if now >= retry_at {
        if control.launch_demand {
            control.launch_demand = false;
            return Some(CooldownOutcome::Launch);
        }
        control.set_phase(ServerPhase::Stopped, now);
        return Some(CooldownOutcome::Stopped);
    }
    None
}

/// Takes an event during a cooldown: a login that saw the failure asks for a retry.
pub fn cooldown_event(control: &mut SupervisorControl, event: SupervisorEvent, now: Nanos) -> (outcome:
    Option<CooldownOutcome>)
    requires
        old(control).unencumbered(),
        old(control).valid(),
    ensures
        final(control).valid(),
        final(control).lifecycle.may_follow(old(control).lifecycle),
        outcome == (if event == SupervisorEvent::Shutdown || event == SupervisorEvent::WakeClosed {
            Some(CooldownOutcome::Shutdown)
        } else {
            None
        }),
        *final(control) == (match event {
            SupervisorEvent::Shutdown | SupervisorEvent::WakeClosed => old(control).phase_set(
                ServerPhase::Stopped,
                now,
            ),
            SupervisorEvent::Wake(request) => SupervisorControl {
                launch_demand: old(control).launch_demand || request.retries(
                    old(control).lifecycle,
                ),
                ..*old(control)
            },
            _ => *old(control),
        }),
{
    match event {
        SupervisorEvent::Shutdown | SupervisorEvent::WakeClosed => {
            control.set_phase(ServerPhase::Stopped, now);
            Some(CooldownOutcome::Shutdown)
        },
        SupervisorEvent::Wake(request) => {
            if request.requests_retry(control.lifecycle) {
                control.launch_demand = true;
            }
            None
        },
        SupervisorEvent::Mutation(_) | SupervisorEvent::Deadline => None,
    }
}

/// A login during the first look at the backend is kept if it saw that look; a later look keeps
/// none. A demand that is there stays, and nothing else changes.
pub proof fn first_looks_keep_logins(
    control: SupervisorControl,
    request: WakeRequest,
    latch_startup_demand: bool,
)
    ensures
        latched(control, request, latch_startup_demand).launch_demand <==> control.launch_demand
            || (latch_startup_demand && request.observed == control.lifecycle),
        latched(control, request, latch_startup_demand).lifecycle == control.lifecycle,
        latched(control, request, latch_startup_demand).stopping_reason == control.stopping_reason,
        latched(control, request, latch_startup_demand).fatal_error == control.fatal_error,
{
}

} // verus!
