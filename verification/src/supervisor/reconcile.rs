//! Reconciliation: what probes of a backend show, and whether a launch may follow.
//!
//! A server is launched only after a probe found nothing in its place. A ready backend that
//! this daemon did not start is proxied but never owned, and anything in between is a conflict
//! that blocks launches.

use vstd::prelude::*;

use crate::rcon::RconProbeClassification;

use super::control::{generation_exhausted, SupervisorControl};
use super::lifecycle::{Nanos, ReconciliationEvidence, ServerPhase};
use super::waiting::SupervisorEvent;

verus! {

/// What a connection attempt to the game port shows.
#[derive(Clone, Copy, Debug, PartialEq, Eq, Structural)]
pub enum BackendProbeClassification {
    Connected,
    Refused,
    Inconclusive,
}

/// How a connection attempt ended.
#[derive(Clone, Copy, Debug, PartialEq, Eq, Structural)]
pub enum ConnectionAttempt {
    Connected,
    Refused,
    Failed,
    TimedOut,
}

/// Classifies a connection attempt to the game port: only an outright refusal shows that
/// nothing is there.
pub fn classify_backend_attempt(attempt: ConnectionAttempt) -> (class: BackendProbeClassification)
    ensures
        class == BackendProbeClassification::Connected <==> attempt
            == ConnectionAttempt::Connected,
        class == BackendProbeClassification::Refused <==> attempt == ConnectionAttempt::Refused,
{
    match attempt {
        ConnectionAttempt::Connected => BackendProbeClassification::Connected,
        ConnectionAttempt::Refused => BackendProbeClassification::Refused,
        ConnectionAttempt::Failed
        | ConnectionAttempt::TimedOut => BackendProbeClassification::Inconclusive,
    }
}

/// Classifies an attempt to log in to the remote console.
pub fn classify_rcon_attempt(attempt: ConnectionAttempt, authenticated: bool) -> (class:
    RconProbeClassification)
    ensures
        class == (match attempt {
            ConnectionAttempt::Connected => if authenticated {
                RconProbeClassification::Authenticated
            } else {
                RconProbeClassification::AcceptedFailure
            },
            ConnectionAttempt::Refused => RconProbeClassification::Refused,
            _ => RconProbeClassification::Inconclusive,
        }),
{
    match attempt {
        ConnectionAttempt::Connected => if authenticated {
            RconProbeClassification::Authenticated
        } else {
            RconProbeClassification::AcceptedFailure
        },
        ConnectionAttempt::Refused => RconProbeClassification::Refused,
        ConnectionAttempt::Failed
        | ConnectionAttempt::TimedOut => RconProbeClassification::Inconclusive,
    }
}

/// What the probes of one reconciliation show together.
#[derive(Clone, Copy, Debug, PartialEq, Eq, Structural)]
pub enum ReconciliationClassification {
    /// Nothing is there.
    Clean,
    /// A backend is there and answers every probe.
    FullyReady,
    /// Something is there.
    Positive,
    /// The probes show nothing.
    Inconclusive,
}

/// The probes behind a conflict, for telling one conflict from the next.
#[derive(Clone, Copy, Debug, PartialEq, Eq, Structural)]
pub struct ConflictClassification {
    pub rcon: Option<RconProbeClassification>,
    pub backend: BackendProbeClassification,
    pub sticky_positive: bool,
}

/// The probes of one reconciliation.
#[derive(Clone, Copy, Debug, PartialEq, Eq, Structural)]
pub enum ReconciliationResult {
    ConfiguredRcon { rcon: RconProbeClassification, backend: BackendProbeClassification },
    BackendOnly(BackendProbeClassification),
}

impl ReconciliationResult {
    /// That some probe reached something.
    pub open spec fn reached(self) -> bool {
        match self {
            ReconciliationResult::ConfiguredRcon { rcon, backend } => rcon
                == RconProbeClassification::Authenticated || rcon
                == RconProbeClassification::AcceptedFailure || backend
                == BackendProbeClassification::Connected,
            ReconciliationResult::BackendOnly(backend) => backend
                == BackendProbeClassification::Connected,
        }
    }

    /// That every probe succeeded.
    pub open spec fn ready(self) -> bool {
        match self {
            ReconciliationResult::ConfiguredRcon { rcon, backend } => rcon
                == RconProbeClassification::Authenticated && backend
                == BackendProbeClassification::Connected,
            ReconciliationResult::BackendOnly(backend) => backend
                == BackendProbeClassification::Connected,
        }
    }

    /// That every probe was refused.
    pub open spec fn refused(self) -> bool {
        match self {
            ReconciliationResult::ConfiguredRcon { rcon, backend } => rcon
                == RconProbeClassification::Refused && backend
                == BackendProbeClassification::Refused,
            ReconciliationResult::BackendOnly(backend) => backend
                == BackendProbeClassification::Refused,
        }
    }

    /// What the probes show together.
    pub open spec fn class(self) -> ReconciliationClassification {
        if self.ready() {
            ReconciliationClassification::FullyReady
        } else if self.reached() {
            ReconciliationClassification::Positive
        } else if self.refused() {
            ReconciliationClassification::Clean
        } else {
            ReconciliationClassification::Inconclusive
        }
    }

    /// The probes behind a conflict, in mathematical form.
    pub open spec fn conflict(self, sticky_positive: bool) -> ConflictClassification {
        match self {
            ReconciliationResult::ConfiguredRcon { rcon, backend } => ConflictClassification {
                rcon: Some(rcon),
                backend,
                sticky_positive,
            },
            ReconciliationResult::BackendOnly(backend) => ConflictClassification {
                rcon: None,
                backend,
                sticky_positive,
            },
        }
    }

    /// What the probes show together.
    pub fn classification(&self) -> (class: ReconciliationClassification)
        ensures
            class == self.class(),
    {
        match self {
            ReconciliationResult::ConfiguredRcon { rcon, backend } => match (*rcon, *backend) {
                (RconProbeClassification::Authenticated, BackendProbeClassification::Connected) => {
                    ReconciliationClassification::FullyReady
                },
                (
                    RconProbeClassification::Authenticated
                    | RconProbeClassification::AcceptedFailure,
                    _,
                )
                | (_, BackendProbeClassification::Connected) => {
                    ReconciliationClassification::Positive
                },
                (RconProbeClassification::Refused, BackendProbeClassification::Refused) => {
                    ReconciliationClassification::Clean
                },
                _ => ReconciliationClassification::Inconclusive,
            },
            ReconciliationResult::BackendOnly(backend) => match *backend {
                BackendProbeClassification::Connected => ReconciliationClassification::FullyReady,
                BackendProbeClassification::Refused => ReconciliationClassification::Clean,
                BackendProbeClassification::Inconclusive => {
                    ReconciliationClassification::Inconclusive
                },
            },
        }
    }

    /// The probes behind a conflict.
    pub fn conflict_classification(&self, sticky_positive: bool) -> (class: ConflictClassification)
        ensures
            class == self.conflict(sticky_positive),
    {
        match self {
            ReconciliationResult::ConfiguredRcon { rcon, backend } => ConflictClassification {
                rcon: Some(*rcon),
                backend: *backend,
                sticky_positive,
            },
            ReconciliationResult::BackendOnly(backend) => ConflictClassification {
                rcon: None,
                backend: *backend,
                sticky_positive,
            },
        }
    }
}

/// A backend counts as absent only if no probe reached anything and none was unclear.
pub proof fn clean_means_every_probe_was_refused(result: ReconciliationResult)
    ensures
        result.class() == ReconciliationClassification::Clean <==> result.refused(),
        result.class() == ReconciliationClassification::FullyReady <==> result.ready(),
        result.ready() ==> result.reached(),
        result.refused() ==> !result.reached(),
{
}

/// Remembers a conflict. Says whether it differs from the last one, so that it is worth a
/// warning.
pub fn conflict_warning_changed(
    last_conflict: &mut Option<ConflictClassification>,
    classification: ConflictClassification,
) -> (changed: bool)
    ensures
        changed == (*old(last_conflict) != Some(classification)),
        *final(last_conflict) == Some(classification),
{
    if *last_conflict == Some(classification) {
        return false;
    }
    *last_conflict = Some(classification);
    true
}

/// That `after` is `before` with a ready foreign backend published, or failed for want of a
/// generation.
pub open spec fn became_external(
    before: SupervisorControl,
    after: SupervisorControl,
    consume_demand: bool,
    now: Nanos,
) -> bool {
    if before.generation_lacking(consume_demand) {
        before.raised(after, generation_exhausted())
    } else {
        after == before.found_foreign(
            ServerPhase::External,
            ReconciliationEvidence::Positive,
            consume_demand,
            now,
        )
    }
}

/// That `after` is `before` with a conflict published, or failed for want of a generation.
pub open spec fn became_conflict(
    before: SupervisorControl,
    after: SupervisorControl,
    evidence: ReconciliationEvidence,
    consume_demand: bool,
    now: Nanos,
) -> bool {
    if before.generation_lacking(consume_demand) {
        before.raised(after, generation_exhausted())
    } else {
        after == before.found_foreign(ServerPhase::Conflict, evidence, consume_demand, now)
    }
}

/// The conflict that is remembered after one was published.
pub open spec fn remembered(
    before: SupervisorControl,
    last_conflict: Option<ConflictClassification>,
    class: ConflictClassification,
    consume_demand: bool,
) -> Option<ConflictClassification> {
    if before.generation_lacking(consume_demand) {
        last_conflict
    } else {
        Some(class)
    }
}

/// The conflict that is remembered after a ready foreign backend was published: none.
pub open spec fn forgotten(
    before: SupervisorControl,
    last_conflict: Option<ConflictClassification>,
    consume_demand: bool,
) -> Option<ConflictClassification> {
    if before.generation_lacking(consume_demand) {
        last_conflict
    } else {
        None
    }
}

/// Publishes a conflict and remembers it. Says whether it is worth a warning.
pub fn publish_conflict_observation(
    control: &mut SupervisorControl,
    result: &ReconciliationResult,
    evidence: ReconciliationEvidence,
    consume_demand: bool,
    last_conflict: &mut Option<ConflictClassification>,
    now: Nanos,
) -> (warn: bool)
    requires
        evidence != ReconciliationEvidence::Absent,
        old(control).lifecycle.phase == ServerPhase::Reconciling || old(control).lifecycle.phase
            == ServerPhase::External,
        old(control).valid(),
    ensures
        final(control).valid(),
        final(control).lifecycle.may_follow(old(control).lifecycle),
        became_conflict(*old(control), *final(control), evidence, consume_demand, now),
        ({
            let class = result.conflict(evidence == ReconciliationEvidence::Positive);
            &&& *final(last_conflict) == remembered(
                *old(control),
                *old(last_conflict),
                class,
                consume_demand,
            )
            &&& warn == (!old(control).generation_lacking(consume_demand) && *old(last_conflict)
                != Some(class))
        }),
{
    let sticky_positive = evidence == ReconciliationEvidence::Positive;
    let classification = result.conflict_classification(sticky_positive);
    if !control.publish_conflict(evidence, consume_demand, now) {
        return false;
    }
    conflict_warning_changed(last_conflict, classification)
}

/// Publishes a ready foreign backend and forgets earlier conflicts. Says whether that was
/// possible.
pub fn publish_external_backend(
    control: &mut SupervisorControl,
    consume_demand: bool,
    last_conflict: &mut Option<ConflictClassification>,
    now: Nanos,
) -> (published: bool)
    requires
        old(control).lifecycle.phase == ServerPhase::Reconciling || old(control).lifecycle.phase
            == ServerPhase::External,
        old(control).valid(),
    ensures
        final(control).valid(),
        final(control).lifecycle.may_follow(old(control).lifecycle),
        published == !old(control).generation_lacking(consume_demand),
        became_external(*old(control), *final(control), consume_demand, now),
        *final(last_conflict) == forgotten(*old(control), *old(last_conflict), consume_demand),
{
    if !control.publish_external(consume_demand, now) {
        return false;
    }
    *last_conflict = None;
    true
}

/// What the first reconciliation leads to.
#[derive(Clone, Copy, Debug, PartialEq, Eq, Structural)]
pub enum StartupReconciliationOutcome {
    Idle,
    Launch,
    Shutdown,
}

/// What the reconciliation before a launch leads to.
#[derive(Clone, Copy, Debug, PartialEq, Eq, Structural)]
pub enum FinalGateOutcome {
    Launch,
    Blocked,
    Shutdown,
}

/// The evidence that a conflict rests on after probes of this class.
pub open spec fn conflict_evidence(class: ReconciliationClassification) -> ReconciliationEvidence {
    if class == ReconciliationClassification::Positive {
        ReconciliationEvidence::Positive
    } else {
        ReconciliationEvidence::Inconclusive
    }
}

/// Concludes the first reconciliation. A login that came meanwhile is met by a launch if
/// nothing is there, and is used up otherwise.
pub fn reconcile_startup(
    control: &mut SupervisorControl,
    result: &ReconciliationResult,
    shutdown_due: bool,
    last_conflict: &mut Option<ConflictClassification>,
    now: Nanos,
) -> (outcome: StartupReconciliationOutcome)
    requires
        old(control).lifecycle.phase == ServerPhase::Reconciling,
    ensures
        final(control).valid(),
        final(control).lifecycle.may_follow(old(control).lifecycle),
        !final(control).launch_demand,
        ({
            let demand = old(control).launch_demand;
            let taken = SupervisorControl { launch_demand: false, ..*old(control) };
            let class = result.class();
            if shutdown_due {
                &&& outcome == StartupReconciliationOutcome::Shutdown
                &&& *final(control) == taken
                &&& *final(last_conflict) == *old(last_conflict)
            } else {
                match class {
                    ReconciliationClassification::Clean => {
                        &&& outcome == (if demand {
                            StartupReconciliationOutcome::Launch
                        } else {
                            StartupReconciliationOutcome::Idle
                        })
                        &&& *final(control) == (SupervisorControl {
                            lifecycle: taken.lifecycle.moved_to(ServerPhase::Stopped, now),
                            ..taken
                        })
                        &&& *final(last_conflict) is None
                    },
                    ReconciliationClassification::FullyReady => {
                        &&& outcome == StartupReconciliationOutcome::Idle
                        &&& became_external(taken, *final(control), demand, now)
                        &&& *final(last_conflict) == forgotten(taken, *old(last_conflict), demand)
                    },
                    _ => {
                        let evidence = conflict_evidence(class);
                        &&& outcome == StartupReconciliationOutcome::Idle
                        &&& became_conflict(taken, *final(control), evidence, demand, now)
                        &&& *final(last_conflict) == remembered(
                            taken,
                            *old(last_conflict),
                            result.conflict(evidence == ReconciliationEvidence::Positive),
                            demand,
                        )
                    },
                }
            }
        }),
{
    let startup_demand = control.launch_demand;
    control.launch_demand = false;
    if shutdown_due {
        return StartupReconciliationOutcome::Shutdown;
    }
    match result.classification() {
        ReconciliationClassification::Clean => {
            control.publish_stopped_after_clean_reconciliation(now);
            *last_conflict = None;
            if startup_demand {
                StartupReconciliationOutcome::Launch
            } else {
                StartupReconciliationOutcome::Idle
            }
        },
        ReconciliationClassification::FullyReady => {
            let _ = publish_external_backend(control, startup_demand, last_conflict, now);
            StartupReconciliationOutcome::Idle
        },
        ReconciliationClassification::Positive => {
            let _ = publish_conflict_observation(
                control,
                result,
                ReconciliationEvidence::Positive,
                startup_demand,
                last_conflict,
                now,
            );
            StartupReconciliationOutcome::Idle
        },
        ReconciliationClassification::Inconclusive => {
            let _ = publish_conflict_observation(
                control,
                result,
                ReconciliationEvidence::Inconclusive,
                startup_demand,
                last_conflict,
                now,
            );
            StartupReconciliationOutcome::Idle
        },
    }
}

/// That a launch may follow: earlier probes never reached anything, and these were all refused.
pub open spec fn launch_allowed(
    prior: ReconciliationEvidence,
    result: ReconciliationResult,
) -> bool {
    prior != ReconciliationEvidence::Positive && result.class()
        == ReconciliationClassification::Clean
}

/// The evidence that the reconciliation before a launch leaves when it finds a conflict; once
/// something was reached, that stays.
pub open spec fn gate_evidence(
    prior: ReconciliationEvidence,
    class: ReconciliationClassification,
) -> ReconciliationEvidence {
    if prior == ReconciliationEvidence::Positive {
        ReconciliationEvidence::Positive
    } else {
        conflict_evidence(class)
    }
}

/// What the reconciliation before a launch comes to.
pub open spec fn gate_outcome(
    prior: ReconciliationEvidence,
    result: ReconciliationResult,
    shutdown_due: bool,
) -> FinalGateOutcome {
    if shutdown_due {
        FinalGateOutcome::Shutdown
    } else if launch_allowed(prior, result) {
        FinalGateOutcome::Launch
    } else {
        FinalGateOutcome::Blocked
    }
}

/// Concludes the reconciliation before a launch.
pub fn reconcile_final_gate(
    control: &mut SupervisorControl,
    prior_evidence: ReconciliationEvidence,
    result: &ReconciliationResult,
    shutdown_due: bool,
    last_conflict: &mut Option<ConflictClassification>,
    now: Nanos,
) -> (outcome: FinalGateOutcome)
    requires
        old(control).lifecycle.phase == ServerPhase::Reconciling,
    ensures
        final(control).valid(),
        final(control).lifecycle.may_follow(old(control).lifecycle),
        outcome == gate_outcome(prior_evidence, *result, shutdown_due),
        outcome == FinalGateOutcome::Shutdown ==> *final(control) == *old(control)
            && *final(last_conflict) == *old(last_conflict),
        outcome == FinalGateOutcome::Launch ==> *final(control) == *old(control)
            && *final(last_conflict) is None,
        outcome == FinalGateOutcome::Blocked && result.class()
            == ReconciliationClassification::FullyReady ==> became_external(
            *old(control),
            *final(control),
            true,
            now,
        ) && *final(last_conflict) == forgotten(*old(control), *old(last_conflict), true),
        outcome == FinalGateOutcome::Blocked && result.class()
            != ReconciliationClassification::FullyReady ==> {
            let evidence = gate_evidence(prior_evidence, result.class());
            &&& became_conflict(*old(control), *final(control), evidence, true, now)
            &&& *final(last_conflict) == remembered(
                *old(control),
                *old(last_conflict),
                result.conflict(evidence == ReconciliationEvidence::Positive),
                true,
            )
        },
{
    if shutdown_due {
        return FinalGateOutcome::Shutdown;
    }
    let classification = result.classification();
    if prior_evidence == ReconciliationEvidence::Positive {
        if classification == ReconciliationClassification::FullyReady {
            let _ = publish_external_backend(control, true, last_conflict, now);
        } else {
            let _ = publish_conflict_observation(
                control,
                result,
                ReconciliationEvidence::Positive,
                true,
                last_conflict,
                now,
            );
        }
        return FinalGateOutcome::Blocked;
    }
    match classification {
        ReconciliationClassification::Clean => {
            *last_conflict = None;
            FinalGateOutcome::Launch
        },
        ReconciliationClassification::FullyReady => {
            let _ = publish_external_backend(control, true, last_conflict, now);
            FinalGateOutcome::Blocked
        },
        ReconciliationClassification::Positive => {
            let _ = publish_conflict_observation(
                control,
                result,
                ReconciliationEvidence::Positive,
                true,
                last_conflict,
                now,
            );
            FinalGateOutcome::Blocked
        },
        ReconciliationClassification::Inconclusive => {
            let _ = publish_conflict_observation(
                control,
                result,
                ReconciliationEvidence::Inconclusive,
                true,
                last_conflict,
                now,
            );
            FinalGateOutcome::Blocked
        },
    }
}

/// A server is never launched once something was reached in its place, nor while any probe is
/// less than an outright refusal.
pub proof fn positive_evidence_blocks_every_launch(
    prior: ReconciliationEvidence,
    result: ReconciliationResult,
)
    ensures
        prior == ReconciliationEvidence::Positive ==> !launch_allowed(prior, result),
        result.reached() ==> !launch_allowed(prior, result),
        launch_allowed(prior, result) ==> result.refused(),
{
}

/// Positive evidence stays through every blocked launch: what a conflict leaves behind is
/// positive if what it started from was.
pub proof fn positive_evidence_is_sticky(
    control: SupervisorControl,
    after: SupervisorControl,
    class: ReconciliationClassification,
    now: Nanos,
)
    requires
        control.lifecycle.phase == ServerPhase::Reconciling,
        control.lifecycle.reconciliation_evidence == ReconciliationEvidence::Positive,
        became_conflict(
            control,
            after,
            gate_evidence(ReconciliationEvidence::Positive, class),
            true,
            now,
        ) || became_external(control, after, true, now),
    ensures
        after.lifecycle.reconciliation_evidence == ReconciliationEvidence::Positive,
{
}

/// What to do next while a foreign backend is proxied.
#[derive(Clone, Copy, Debug, PartialEq, Eq, Structural)]
pub enum ExternalMonitorStep {
    /// Wait for the next event.
    Wait,
    /// Probe the backend again.
    Probe,
    Shutdown,
}

/// What to do after an event while a foreign backend is proxied: logins are ignored, anything
/// else but a shutdown calls for a probe.
pub fn external_monitor_event(event: SupervisorEvent) -> (step: ExternalMonitorStep)
    ensures
        step == (match event {
            SupervisorEvent::Shutdown | SupervisorEvent::WakeClosed => {
                ExternalMonitorStep::Shutdown
            },
            SupervisorEvent::Wake(_) => ExternalMonitorStep::Wait,
            SupervisorEvent::Mutation(_) | SupervisorEvent::Deadline => ExternalMonitorStep::Probe,
        }),
{
    match event {
        SupervisorEvent::Shutdown | SupervisorEvent::WakeClosed => ExternalMonitorStep::Shutdown,
        SupervisorEvent::Wake(_) => ExternalMonitorStep::Wait,
        SupervisorEvent::Mutation(_) | SupervisorEvent::Deadline => ExternalMonitorStep::Probe,
    }
}

/// What a probe of a proxied foreign backend leads to.
#[derive(Clone, Copy, Debug, PartialEq, Eq, Structural)]
pub enum ExternalMonitorOutcome {
    /// The backend is still ready; probe again at the given moment.
    PollAt(Nanos),
    Conflict,
    Shutdown,
}

/// Concludes a probe of a proxied foreign backend. Less than full readiness is a conflict with
/// positive evidence: the backend was there a moment ago.
pub fn monitor_external_server(
    control: &mut SupervisorControl,
    result: &ReconciliationResult,
    shutdown_due: bool,
    last_conflict: &mut Option<ConflictClassification>,
    poll_interval: Nanos,
    now: Nanos,
) -> (outcome: ExternalMonitorOutcome)
    requires
        old(control).lifecycle.phase == ServerPhase::External,
        old(control).valid(),
        now + poll_interval <= Nanos::MAX,
    ensures
        final(control).valid(),
        final(control).lifecycle.may_follow(old(control).lifecycle),
        outcome == (if shutdown_due {
            ExternalMonitorOutcome::Shutdown
        } else if result.ready() {
            ExternalMonitorOutcome::PollAt((now + poll_interval) as Nanos)
        } else {
            ExternalMonitorOutcome::Conflict
        }),
        outcome != ExternalMonitorOutcome::Conflict ==> *final(control) == *old(control)
            && *final(last_conflict) == *old(last_conflict),
        outcome == ExternalMonitorOutcome::Conflict ==> *final(control) == old(
            control,
        ).found_foreign(ServerPhase::Conflict, ReconciliationEvidence::Positive, false, now)
            && *final(last_conflict) == Some(result.conflict(true)),
{
    if shutdown_due {
        return ExternalMonitorOutcome::Shutdown;
    }
    if result.classification() == ReconciliationClassification::FullyReady {
        return ExternalMonitorOutcome::PollAt(now + poll_interval);
    }
    let _ = publish_conflict_observation(
        control,
        result,
        ReconciliationEvidence::Positive,
        false,
        last_conflict,
        now,
    );
    ExternalMonitorOutcome::Conflict
}

/// What the probes show together, from each of them: a backend is ready if its game port takes a
/// connection and its console, if there is one, takes the password; something is there if any
/// probe reached it; nothing is there if all of them were refused; otherwise nobody knows.
pub proof fn probes_show_what_is_there(
    rcon: RconProbeClassification,
    backend: BackendProbeClassification,
)
    ensures
        ({
            let alone = ReconciliationResult::BackendOnly(backend).class();
            let both = ReconciliationResult::ConfiguredRcon { rcon, backend }.class();
            &&& backend == BackendProbeClassification::Connected <==> alone
                == ReconciliationClassification::FullyReady
            &&& backend == BackendProbeClassification::Refused <==> alone
                == ReconciliationClassification::Clean
            &&& backend == BackendProbeClassification::Inconclusive <==> alone
                == ReconciliationClassification::Inconclusive
            &&& both == ReconciliationClassification::FullyReady <==> rcon
                == RconProbeClassification::Authenticated && backend
                == BackendProbeClassification::Connected
            &&& both == ReconciliationClassification::Clean <==> rcon
                == RconProbeClassification::Refused && backend
                == BackendProbeClassification::Refused
            &&& both == ReconciliationClassification::Inconclusive <==> (rcon
                == RconProbeClassification::Refused || rcon
                == RconProbeClassification::Inconclusive) && (backend
                == BackendProbeClassification::Refused || backend
                == BackendProbeClassification::Inconclusive) && !(rcon
                == RconProbeClassification::Refused && backend
                == BackendProbeClassification::Refused)
        }),
{
}

/// A launch follows exactly if the game port refused the connection, the console, if there is
/// one, did too, nothing was reached before and no shutdown is due.
pub proof fn launches_need_refusals(
    prior: ReconciliationEvidence,
    result: ReconciliationResult,
    shutdown_due: bool,
)
    ensures
        gate_outcome(prior, result, shutdown_due) == FinalGateOutcome::Launch <==> !shutdown_due
            && prior != ReconciliationEvidence::Positive && match result {
            ReconciliationResult::BackendOnly(backend) => backend
                == BackendProbeClassification::Refused,
            ReconciliationResult::ConfiguredRcon { rcon, backend } => rcon
                == RconProbeClassification::Refused && backend
                == BackendProbeClassification::Refused,
        },
        shutdown_due <==> gate_outcome(prior, result, shutdown_due) == FinalGateOutcome::Shutdown,
{
}

/// A conflict rests on positive evidence exactly if something was reached, now or before; and
/// what the probes showed is kept for telling it from the next one.
pub proof fn conflicts_rest_on_what_was_reached(
    prior: ReconciliationEvidence,
    result: ReconciliationResult,
    sticky: bool,
)
    ensures
        gate_evidence(prior, result.class()) == ReconciliationEvidence::Positive <==> prior
            == ReconciliationEvidence::Positive || result.class()
            == ReconciliationClassification::Positive,
        gate_evidence(prior, result.class()) != ReconciliationEvidence::Absent,
        conflict_evidence(result.class()) == ReconciliationEvidence::Positive <==> result.class()
            == ReconciliationClassification::Positive,
        conflict_evidence(result.class()) != ReconciliationEvidence::Absent,
        result.conflict(sticky).sticky_positive == sticky,
        result matches ReconciliationResult::BackendOnly(backend) ==> result.conflict(sticky).backend
            == backend && result.conflict(sticky).rcon is None,
        result matches ReconciliationResult::ConfiguredRcon { rcon, backend }
            ==> result.conflict(sticky).backend == backend && result.conflict(sticky).rcon == Some(
            rcon,
        ),
{
}

/// A ready backend of somebody else is published as external with positive evidence; anything
/// else that is in the way as a conflict. Only for want of a generation nothing is published.
pub proof fn foreign_backends_are_published(
    before: SupervisorControl,
    after: SupervisorControl,
    evidence: ReconciliationEvidence,
    consume_demand: bool,
    now: Nanos,
    class: ConflictClassification,
)
    requires
        before.lifecycle.launch_generation < u64::MAX,
    ensures
        became_external(before, after, consume_demand, now) ==> after.lifecycle.phase
            == ServerPhase::External && after.lifecycle.reconciliation_evidence
            == ReconciliationEvidence::Positive && after.fatal_error == before.fatal_error,
        became_conflict(before, after, evidence, consume_demand, now) ==> after.lifecycle.phase
            == ServerPhase::Conflict && after.lifecycle.reconciliation_evidence == evidence
            && after.fatal_error == before.fatal_error,
        remembered(before, None, class, consume_demand) == Some(class),
        forgotten(before, Some(class), consume_demand) is None,
{
}

/// Where the generations are used up, a demand cannot be used up either: the supervisor fails, and
/// what it remembers of a conflict stays.
pub proof fn used_up_generations_are_fatal(
    before: SupervisorControl,
    after: SupervisorControl,
    evidence: ReconciliationEvidence,
    now: Nanos,
    last_conflict: Option<ConflictClassification>,
    class: ConflictClassification,
)
    requires
        before.lifecycle.launch_generation == u64::MAX,
    ensures
        became_external(before, after, true, now) ==> after.lifecycle == before.lifecycle
            && after.fatal_error is Some && after.fatal_raised && (before.fatal_error is None
            ==> (after.fatal_error->0)@ == "lifecycle launch generation exhausted"@),
        became_conflict(before, after, evidence, true, now) ==> after.lifecycle == before.lifecycle
            && after.fatal_error is Some && after.fatal_raised,
        remembered(before, last_conflict, class, true) == last_conflict,
        forgotten(before, last_conflict, true) == last_conflict,
        became_external(before, after, false, now) ==> after.lifecycle.phase
            == ServerPhase::External,
        became_conflict(before, after, evidence, false, now) ==> after.lifecycle.phase
            == ServerPhase::Conflict,
{
}

} // verus!
