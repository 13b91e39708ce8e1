//! The supervisor's course: from one wait, launch or stop to the next.

use vstd::prelude::*;

use super::control::{generation_exhausted, SupervisorControl};
use super::lifecycle::{
    backoff, next_streak, FailureCategory, LifecycleState, Nanos, ReconciliationEvidence,
    ServerPhase, LONGEST_BACKOFF,
};
use super::readiness::CycleOutcome;
use super::reconcile::{
    gate_outcome, FinalGateOutcome, ReconciliationResult, StartupReconciliationOutcome,
};
use super::waiting::CooldownOutcome;

verus! {

/// What the supervisor does next.
#[derive(Clone, Copy, Debug, PartialEq, Eq, Structural)]
pub enum RunStep {
    /// Watch a foreign backend.
    MonitorExternal,
    /// Wait until somebody asks for the server.
    AwaitDemand,
    /// Reconcile before a launch.
    FinalGate,
    /// Launch the process of this generation.
    Launch { generation: u64 },
    /// Run the cycle of the launched process.
    RunCycle,
    /// Wait for the end of a cooldown.
    Cooldown { retry_at: Nanos, retry_pending: bool },
    /// The supervisor is done.
    Finish,
}

/// What comes at the top of the supervisor's course. A shutdown that is due calls off a pending
/// launch before anything is probed for it.
pub open spec fn course(
    control: SupervisorControl,
    launch_pending: bool,
    shutdown_due: bool,
) -> RunStep {
    if control.lifecycle.phase == ServerPhase::External {
        RunStep::MonitorExternal
    } else if !launch_pending {
        RunStep::AwaitDemand
    } else if shutdown_due {
        RunStep::Finish
    } else {
        RunStep::FinalGate
    }
}

/// What comes at the top of the supervisor's course.
pub fn run(control: &SupervisorControl, launch_pending: bool, shutdown_due: bool) -> (step: RunStep)
    ensures
        step == course(*control, launch_pending, shutdown_due),
{
    if control.lifecycle.phase == ServerPhase::External {
        RunStep::MonitorExternal
    } else if launch_pending {
        if shutdown_due {
            RunStep::Finish
        } else {
            RunStep::FinalGate
        }
    } else {
        RunStep::AwaitDemand
    }
}

/// What comes after the first reconciliation.
pub fn run_after_startup(
    control: &SupervisorControl,
    outcome: StartupReconciliationOutcome,
    shutdown_due: bool,
) -> (step: RunStep)
    ensures
        step == (match outcome {
            StartupReconciliationOutcome::Launch => course(*control, true, shutdown_due),
            StartupReconciliationOutcome::Idle => course(*control, false, shutdown_due),
            StartupReconciliationOutcome::Shutdown => RunStep::Finish,
        }),
{
    match outcome {
        StartupReconciliationOutcome::Launch => run(control, true, shutdown_due),
        StartupReconciliationOutcome::Idle => run(control, false, shutdown_due),
        StartupReconciliationOutcome::Shutdown => RunStep::Finish,
    }
}

/// What comes after waiting for a demand. A supervisor that is told to end while stopped says
/// once more that it is.
pub fn run_after_demand(
    control: &mut SupervisorControl,
    demanded: bool,
    shutdown_due: bool,
    now: Nanos,
) -> (step: RunStep)
    requires
        old(control).valid(),
    ensures
        final(control).valid(),
        final(control).lifecycle.may_follow(old(control).lifecycle),
        step == (if demanded && !shutdown_due {
            RunStep::FinalGate
        } else {
            RunStep::Finish
        }),
        *final(control) == (if !demanded && old(control).lifecycle.phase == ServerPhase::Stopped {
            old(control).phase_set(ServerPhase::Stopped, now)
        } else {
            *old(control)
        }),
{
    if !demanded {
        if control.lifecycle.phase == ServerPhase::Stopped {
            control.set_phase(ServerPhase::Stopped, now);
        }
        return RunStep::Finish;
    }
    if shutdown_due {
        return RunStep::Finish;
    }
    RunStep::FinalGate
}

/// What comes after the reconciliation before a launch.
pub open spec fn after_gate(control: SupervisorControl, outcome: FinalGateOutcome) -> RunStep {
    match outcome {
        FinalGateOutcome::Launch => if control.lifecycle.launch_generation < u64::MAX {
            RunStep::Launch { generation: (control.lifecycle.launch_generation + 1) as u64 }
        } else {
            RunStep::Finish
        },
        FinalGateOutcome::Blocked => course(control, false, false),
        FinalGateOutcome::Shutdown => RunStep::Finish,
    }
}

/// What comes after the reconciliation before a launch.
pub fn run_after_gate(control: &mut SupervisorControl, outcome: FinalGateOutcome) -> (step: RunStep)
    ensures
        step == after_gate(*old(control), outcome),
        outcome == FinalGateOutcome::Launch && old(control).lifecycle.launch_generation == u64::MAX
            ==> old(control).raised(*final(control), generation_exhausted()),
        !(outcome == FinalGateOutcome::Launch && old(control).lifecycle.launch_generation
            == u64::MAX) ==> *final(control) == *old(control),
{
    match outcome {
        FinalGateOutcome::Launch => match control.next_launch_generation() {
            Some(generation) => RunStep::Launch { generation },
            None => RunStep::Finish,
        },
        FinalGateOutcome::Blocked => run(control, false, false),
        FinalGateOutcome::Shutdown => RunStep::Finish,
    }
}

/// What comes after an attempt to launch the process: its cycle, or a cooldown.
pub fn run_after_launch(control: &mut SupervisorControl, generation: u64, launched: bool, now: Nanos) -> (step:
    RunStep)
    requires
        old(control).lifecycle.phase == ServerPhase::Reconciling,
        old(control).lifecycle.reconciliation_evidence != ReconciliationEvidence::Positive,
        generation >= old(control).lifecycle.launch_generation,
        now + LONGEST_BACKOFF <= Nanos::MAX,
    ensures
        final(control).valid(),
        final(control).lifecycle.may_follow(old(control).lifecycle),
        ({
            let delay = backoff(next_streak(old(control).lifecycle.failure_streak));
            let next = LifecycleState { launch_generation: generation, ..old(control).lifecycle };
            &&& step == (if launched {
                RunStep::RunCycle
            } else {
                RunStep::Cooldown { retry_at: (now + delay) as Nanos, retry_pending: false }
            })
            &&& *final(control) == (SupervisorControl {
                lifecycle: if launched {
                    next.moved_to(ServerPhase::Starting, now)
                } else {
                    next.failed(FailureCategory::LaunchFailed).cooling_down(now, delay as int)
                },
                ..*old(control)
            })
        }),
{
    if launched {
        control.record_launch_success(generation, now);
        RunStep::RunCycle
    } else {
        let retry_at: Nanos = control.record_launch_failure(generation, now);
        RunStep::Cooldown { retry_at, retry_pending: false }
    }
}

/// What comes after a cooldown.
pub fn run_after_cooldown(
    control: &SupervisorControl,
    outcome: CooldownOutcome,
    shutdown_due: bool,
) -> (step: RunStep)
    ensures
        step == (match outcome {
            CooldownOutcome::Launch => course(*control, true, shutdown_due),
            CooldownOutcome::Stopped => course(*control, false, shutdown_due),
            CooldownOutcome::Shutdown => RunStep::Finish,
        }),
{
    match outcome {
        CooldownOutcome::Launch => run(control, true, shutdown_due),
        CooldownOutcome::Stopped => run(control, false, shutdown_due),
        CooldownOutcome::Shutdown => RunStep::Finish,
    }
}

/// What comes after the cycle of an owned server.
pub open spec fn after_cycle(
    control: SupervisorControl,
    outcome: CycleOutcome,
    shutdown_due: bool,
) -> RunStep {
    match outcome {
        CycleOutcome::Stopped => RunStep::AwaitDemand,
        CycleOutcome::Restart => course(control, true, shutdown_due),
        CycleOutcome::Failed { retry_at, retry_pending } => RunStep::Cooldown {
            retry_at,
            retry_pending,
        },
        CycleOutcome::Shutdown => RunStep::Finish,
    }
}

/// What comes after the cycle of an owned server. After a failure of the supervisor itself the
/// last phase stays as it is.
pub fn run_after_cycle(
    control: &mut SupervisorControl,
    outcome: CycleOutcome,
    shutdown_due: bool,
    now: Nanos,
) -> (step: RunStep)
    requires
        old(control).valid(),
        outcome == CycleOutcome::Stopped || outcome == CycleOutcome::Shutdown ==> old(
            control,
        ).unencumbered(),
    ensures
        final(control).valid(),
        final(control).lifecycle.may_follow(old(control).lifecycle),
        *final(control) == (if outcome == CycleOutcome::Stopped || (outcome
            == CycleOutcome::Shutdown && old(control).fatal_error is None) {
            old(control).phase_set(ServerPhase::Stopped, now)
        } else {
            *old(control)
        }),
        step == after_cycle(*old(control), outcome, shutdown_due),
{
    match outcome {
        CycleOutcome::Stopped => {
            control.set_phase(ServerPhase::Stopped, now);
            run(control, false, shutdown_due)
        },
        CycleOutcome::Restart => run(control, true, shutdown_due),
        CycleOutcome::Failed { retry_at, retry_pending } => RunStep::Cooldown {
            retry_at,
            retry_pending,
        },
        CycleOutcome::Shutdown => {
            if control.fatal_error.is_none() {
                control.set_phase(ServerPhase::Stopped, now);
            }
            RunStep::Finish
        },
    }
}

/// A server is launched only after probes that were all refused, with nothing reached earlier and
/// no shutdown due, and with a generation that no launch had before.
pub proof fn launches_follow_refused_probes(
    control: SupervisorControl,
    prior: ReconciliationEvidence,
    result: ReconciliationResult,
    shutdown_due: bool,
)
    ensures
        after_gate(control, gate_outcome(prior, result, shutdown_due)) matches RunStep::Launch {
            generation,
        } ==> {
            &&& result.refused()
            &&& prior != ReconciliationEvidence::Positive
            &&& !shutdown_due
            &&& generation > control.lifecycle.launch_generation
        },
{
}

/// After a stop or a restart no process is launched before the backend has been looked at again;
/// a restart leads to that look at once, or to the end if a shutdown is due.
pub proof fn restarts_look_before_they_launch(
    control: SupervisorControl,
    outcome: CycleOutcome,
    shutdown_due: bool,
)
    ensures
        !(after_cycle(control, outcome, shutdown_due) is Launch),
        outcome == CycleOutcome::Restart && control.lifecycle.phase == ServerPhase::Stopped
            ==> after_cycle(control, outcome, shutdown_due) == (if shutdown_due {
            RunStep::Finish
        } else {
            RunStep::FinalGate
        }),
{
}

/// While a shutdown is due, nothing is probed for a launch.
pub proof fn shutdowns_come_before_the_gate(control: SupervisorControl, launch_pending: bool)
    ensures
        course(control, launch_pending, true) != RunStep::FinalGate,
{
}

/// The course goes by what is known: a foreign backend is watched, a pending launch is looked
/// into, and otherwise somebody has to ask.
pub proof fn the_course_goes_by_what_is_known(control: SupervisorControl, launch_pending: bool)
    ensures
        control.lifecycle.phase == ServerPhase::External ==> course(control, launch_pending, false)
            == RunStep::MonitorExternal,
        control.lifecycle.phase != ServerPhase::External && launch_pending ==> course(
            control,
            launch_pending,
            false,
        ) == RunStep::FinalGate,
        control.lifecycle.phase != ServerPhase::External && !launch_pending ==> course(
            control,
            launch_pending,
            false,
        ) == RunStep::AwaitDemand,
        control.lifecycle.phase != ServerPhase::External && launch_pending ==> course(
            control,
            launch_pending,
            true,
        ) == RunStep::Finish,
{
}

/// A launch takes the next generation; without one left the supervisor ends. A blocked launch
/// goes back to the course without a demand.
pub proof fn launches_take_the_next_generation(
    control: SupervisorControl,
    outcome: FinalGateOutcome,
)
    ensures
        outcome == FinalGateOutcome::Launch && control.lifecycle.launch_generation < u64::MAX
            ==> after_gate(control, outcome) == (RunStep::Launch {
            generation: (control.lifecycle.launch_generation + 1) as u64,
        }),
        outcome == FinalGateOutcome::Launch && control.lifecycle.launch_generation == u64::MAX
            ==> after_gate(control, outcome) == RunStep::Finish,
        outcome == FinalGateOutcome::Shutdown ==> after_gate(control, outcome) == RunStep::Finish,
        outcome == FinalGateOutcome::Blocked ==> after_gate(control, outcome) == (
        if control.lifecycle.phase == ServerPhase::External {
            RunStep::MonitorExternal
        } else {
            RunStep::AwaitDemand
        }),
{
}

/// After its cycle a stopped server waits for a demand, a failed one cools down until its own
/// moment, and a shutdown ends the supervisor.
pub proof fn cycles_lead_on(control: SupervisorControl, outcome: CycleOutcome, shutdown_due: bool)
    ensures
        outcome == CycleOutcome::Stopped ==> after_cycle(control, outcome, shutdown_due)
            == RunStep::AwaitDemand,
        outcome matches CycleOutcome::Failed { retry_at, retry_pending } ==> after_cycle(
            control,
            outcome,
            shutdown_due,
        ) == (RunStep::Cooldown { retry_at, retry_pending }),
        outcome == CycleOutcome::Shutdown ==> after_cycle(control, outcome, shutdown_due)
            == RunStep::Finish,
{
}

/// A restart is a launch that was asked for; without one the supervisor waits, even while the
/// daemon shuts down, for whoever tells it so.
pub proof fn restarts_are_pending_launches(control: SupervisorControl, shutdown_due: bool)
    ensures
        after_cycle(control, CycleOutcome::Restart, shutdown_due) == (if control.lifecycle.phase
            == ServerPhase::External {
            RunStep::MonitorExternal
        } else if shutdown_due {
            RunStep::Finish
        } else {
            RunStep::FinalGate
        }),
        control.lifecycle.phase == ServerPhase::External ==> course(control, true, shutdown_due)
            == RunStep::MonitorExternal && course(control, false, shutdown_due)
            == RunStep::MonitorExternal,
        control.lifecycle.phase != ServerPhase::External ==> course(control, false, shutdown_due)
            == RunStep::AwaitDemand,
{
}

} // verus!
