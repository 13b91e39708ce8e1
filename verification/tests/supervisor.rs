//! The supervisor: what it admits, what it waits for, when it launches and how it stops.

use mcservernap::backend_use::{BackendCycle, BackendUseCoordinator};
use mcservernap::rcon::RconProbeClassification;
use mcservernap::supervisor::admission::MutationDisposition::{Accepted, AlreadySatisfied};
use mcservernap::supervisor::admission::MutationError::{
    ConflictingBackendEvidence, ExternalBackendNotOwned, OperationInProgress, OperationRejected,
};
use mcservernap::supervisor::admission::{
    AdmissionGate, MutationDisposition, MutationEffect, MutationEnvelope, MutationError,
    MutationOperation, ReconciliationMode, StoppingReason,
};
use mcservernap::supervisor::control::{HandledMutation, SupervisorControl};
use mcservernap::supervisor::lifecycle::{
    failure_backoff, FailureCategory, LifecycleState, ReconciliationEvidence, ServerPhase,
    WakeLatch, WakeLatchError, WakeLatchPoll, WakeRequest, SECOND,
};
use mcservernap::supervisor::monitor::{
    ChildEnd, CommandReply, ConfirmationStart, IdleStopStep, MonitorEvent, MonitorStep,
    PlayerInspection, PollStep, RunningMonitorOutcome, RunningMonitorState,
};
use mcservernap::supervisor::players::{parse_player_count, PlayerCountError};
use mcservernap::supervisor::readiness::{
    deadline_first_look, readiness_deadline_outcome, run_server_cycle, ChildPoll, CycleOutcome,
    CycleStep, ReadinessEvent, ReadinessOutcome, ReadinessStep, ReadinessWait,
};
use mcservernap::supervisor::reconcile::{
    classify_backend_attempt, classify_rcon_attempt, external_monitor_event,
    monitor_external_server, reconcile_final_gate, reconcile_startup, BackendProbeClassification,
    ConnectionAttempt, ExternalMonitorOutcome, ExternalMonitorStep, FinalGateOutcome,
    ReconciliationClassification, ReconciliationResult, StartupReconciliationOutcome,
};
use mcservernap::supervisor::run::{
    run_after_cooldown, run_after_cycle, run_after_demand, run_after_gate, run_after_launch,
    run_after_startup, RunStep,
};
use mcservernap::supervisor::reaping::{
    console_stop_needed, graceful_stop_delivery, graceful_wait_result, stop_and_reap,
    waits_for_graceful_stop, GracefulStopDelivery, GracefulWait, RconStopAttempt, ReapOutcome,
    StopEvent, StopSequence,
};
use mcservernap::supervisor::stopping::{
    explicit_cleanup_failed, explicit_stop_step, explicit_wait_failed, failed_cleanup_event,
    fatal_shutdown_cleanup, finish_failed_cleanup, idle_cleanup_failed, reap_after_wait_error,
    shutdown_cleanup_failed, stop_explicit_server, stop_failed_server, stop_for_shutdown,
    wait_for_explicit_cleanup, ExplicitStopStep, IdleCleanup, Quiescence, QuiescenceError,
    QuiescenceEvent, QuiescenceStep,
};
use mcservernap::supervisor::waiting::{
    cooldown_begin, cooldown_elapsed, cooldown_event, cooldown_shutdown, demand_before_waiting,
    demand_event, CooldownOutcome, DemandStep, ProbeWait, ProbeWaitStep, SupervisorEvent,
};

const CLEAN: ReconciliationResult =
    ReconciliationResult::BackendOnly(BackendProbeClassification::Refused);
const READY: ReconciliationResult =
    ReconciliationResult::BackendOnly(BackendProbeClassification::Connected);
const UNCLEAR: ReconciliationResult =
    ReconciliationResult::BackendOnly(BackendProbeClassification::Inconclusive);
const HALF_READY: ReconciliationResult = ReconciliationResult::ConfiguredRcon {
    rcon: RconProbeClassification::Authenticated,
    backend: BackendProbeClassification::Refused,
};

fn control() -> SupervisorControl {
    SupervisorControl::new("survival".to_owned(), 0)
}

fn in_phase(phase: ServerPhase) -> SupervisorControl {
    let mut control = control();
    control.lifecycle.phase = phase;
    control.reconciliation_mode = ReconciliationMode::FinalGate;
    control.lifecycle.reconciliation_evidence = match phase {
        ServerPhase::External => ReconciliationEvidence::Positive,
        ServerPhase::Conflict => ReconciliationEvidence::Inconclusive,
        _ => ReconciliationEvidence::Absent,
    };
    control
}

fn stopping(reason: StoppingReason) -> SupervisorControl {
    let mut control = in_phase(ServerPhase::Stopping);
    control.stopping_reason = Some(reason);
    control
}

fn request(operation: MutationOperation, id: &str, revision: u64) -> MutationEnvelope {
    MutationEnvelope {
        operation,
        request_id: id.to_owned(),
        expected_command_revision: revision,
    }
}

fn handle(control: &mut SupervisorControl, operation: MutationOperation) -> HandledMutation {
    let revision = control.lifecycle.command_revision;
    control.handle_mutation(
        &request(operation, "1", revision),
        &mut AdmissionGate::pending(),
        9,
    )
}

fn verdict(
    control: &mut SupervisorControl,
    operation: MutationOperation,
) -> Result<MutationDisposition, MutationError> {
    match handle(control, operation).reply.unwrap() {
        Ok(success) => Ok(success.disposition),
        Err(error) => Err(error),
    }
}

fn running(streak: u32) -> SupervisorControl {
    let mut control = in_phase(ServerPhase::Running);
    control.lifecycle.launch_generation = 1;
    control.lifecycle.failure_streak = streak;
    control
}

fn monitor(rcon: bool) -> RunningMonitorState {
    RunningMonitorState::new(
        BackendCycle(1),
        PlayerInspection::from_config(rcon, 0),
        running(0).lifecycle,
    )
}

fn idle_use() -> BackendUseCoordinator {
    let mut backend_use = BackendUseCoordinator::new();
    backend_use.begin_cycle(BackendCycle(1), 0);
    backend_use
}

#[test]
fn lifecycle_phases_constrain_their_evidence() {
    for phase in [
        ServerPhase::Reconciling,
        ServerPhase::Stopped,
        ServerPhase::Running,
        ServerPhase::External,
        ServerPhase::Conflict,
    ] {
        assert!(in_phase(phase).lifecycle.invariant_holds());
    }
    let mut external = in_phase(ServerPhase::External).lifecycle;
    external.reconciliation_evidence = ReconciliationEvidence::Inconclusive;
    assert!(!external.invariant_holds());
    let mut stopped = in_phase(ServerPhase::Stopped).lifecycle;
    stopped.reconciliation_evidence = ReconciliationEvidence::Positive;
    assert!(!stopped.invariant_holds());
    assert_eq!(
        running(0).lifecycle.owned_running_cycle(),
        Some(BackendCycle(1))
    );
    assert_eq!(stopped.owned_running_cycle(), None);
}

#[test]
fn failures_back_off_up_to_a_minute() {
    let delays: Vec<u128> = (1..=6)
        .map(|streak| failure_backoff(streak) / SECOND)
        .collect();
    assert_eq!(delays, [5, 10, 20, 40, 60, 60]);
    assert_eq!(failure_backoff(u32::MAX), 60 * SECOND);
}

#[test]
fn wake_latch_keeps_the_freshest_request() {
    let older = WakeRequest::observed(LifecycleState::reconciling(0));
    let newer = WakeRequest::observed(LifecycleState {
        launch_generation: 1,
        ..LifecycleState::reconciling(0)
    });
    let mut latch = WakeLatch::new();
    assert_eq!(latch.enqueue(older), Ok(true));
    assert_eq!(latch.enqueue(older), Ok(false));
    assert_eq!(latch.enqueue(newer), Ok(true));
    assert_eq!(latch.enqueue(older), Ok(false));
    assert_eq!(latch.poll_recv(), WakeLatchPoll::Request(newer));
    assert_eq!(latch.poll_recv(), WakeLatchPoll::Empty);
    assert_eq!(latch.enqueue(older), Ok(true));
    assert_eq!(latch.try_recv(), Some(older));
    assert_eq!(latch.enqueue(older), Ok(true));
    latch.close();
    assert!(latch.is_closed());
    assert_eq!(latch.try_recv(), None);
    assert_eq!(latch.poll_recv(), WakeLatchPoll::Closed);
    assert_eq!(latch.enqueue(newer), Err(WakeLatchError::Closed));
}

#[test]
fn wakes_serve_only_the_lifecycle_they_saw() {
    let stopped = in_phase(ServerPhase::Stopped).lifecycle;
    let request = WakeRequest::observed(stopped);
    assert!(request.can_start(stopped));
    assert!(!request.can_start(LifecycleState {
        command_revision: 1,
        ..stopped
    }));
    assert!(!request.can_start(LifecycleState {
        launch_generation: 1,
        ..stopped
    }));
    let cooling = LifecycleState {
        phase: ServerPhase::Cooldown,
        failure: Some(FailureCategory::LaunchFailed),
        failure_streak: 1,
        ..stopped
    };
    assert!(WakeRequest::observed(cooling).requests_retry(cooling));
    assert!(WakeRequest::observed(cooling).can_start(stopped));
    assert!(!WakeRequest::observed(stopped).requests_retry(cooling));
    let stopping = in_phase(ServerPhase::Stopping).lifecycle;
    assert!(WakeRequest::observed(stopping).requests_restart(stopping));
    let conflict = in_phase(ServerPhase::Conflict).lifecycle;
    assert!(WakeRequest::observed(conflict).requests_conflict_reconciliation(conflict));
    assert!(
        !WakeRequest::observed(in_phase(ServerPhase::Running).lifecycle).can_start(stopped)
    );
}

#[test]
fn gates_are_decided_once() {
    let mut gate = AdmissionGate::pending();
    assert!(gate.accept());
    assert!(!gate.cancel());
    assert!(gate.is_admitted());
    let mut gate = AdmissionGate::pending();
    assert!(gate.cancel());
    assert!(!gate.accept());
    assert!(gate.is_cancelled());
}

#[test]
fn starts_are_met_by_the_phase() {
    let start = MutationOperation::Start;
    assert_eq!(verdict(&mut control(), start), Ok(Accepted));
    let mut positive = in_phase(ServerPhase::Conflict);
    positive.lifecycle.reconciliation_evidence = ReconciliationEvidence::Positive;
    for (mut control, expected) in [
        (in_phase(ServerPhase::Reconciling), Err(OperationInProgress)),
        (in_phase(ServerPhase::Stopped), Ok(Accepted)),
        (in_phase(ServerPhase::Starting), Err(OperationInProgress)),
        (in_phase(ServerPhase::Running), Ok(AlreadySatisfied)),
        (in_phase(ServerPhase::Cooldown), Ok(Accepted)),
        (
            in_phase(ServerPhase::External),
            Err(ExternalBackendNotOwned),
        ),
        (in_phase(ServerPhase::Conflict), Ok(Accepted)),
        (positive, Err(ConflictingBackendEvidence)),
        (stopping(StoppingReason::AutomaticIdle), Ok(Accepted)),
        (stopping(StoppingReason::FailureCleanup), Ok(Accepted)),
        (
            stopping(StoppingReason::ExplicitStop),
            Err(OperationInProgress),
        ),
        (
            stopping(StoppingReason::ExplicitRestart),
            Err(OperationInProgress),
        ),
        (
            stopping(StoppingReason::DaemonShutdown),
            Err(OperationRejected),
        ),
    ] {
        let before = control.lifecycle;
        assert_eq!(verdict(&mut control, start), expected);
        let moved = expected.is_ok();
        assert_eq!(
            control.lifecycle.command_revision,
            before.command_revision + u64::from(moved)
        );
        assert_eq!(control.launch_demand, expected == Ok(Accepted));
    }
    let mut demanded = in_phase(ServerPhase::Cooldown);
    demanded.launch_demand = true;
    assert_eq!(verdict(&mut demanded, start), Err(OperationInProgress));
}

#[test]
fn stops_are_met_by_the_phase() {
    let stop = MutationOperation::Stop;
    assert_eq!(verdict(&mut control(), stop), Err(OperationRejected));
    for (mut control, expected) in [
        (in_phase(ServerPhase::Reconciling), Err(OperationInProgress)),
        (in_phase(ServerPhase::Stopped), Ok(AlreadySatisfied)),
        (in_phase(ServerPhase::Cooldown), Ok(AlreadySatisfied)),
        (
            in_phase(ServerPhase::External),
            Err(ExternalBackendNotOwned),
        ),
        (
            in_phase(ServerPhase::Conflict),
            Err(ConflictingBackendEvidence),
        ),
        (stopping(StoppingReason::AutomaticIdle), Ok(Accepted)),
        (stopping(StoppingReason::ExplicitRestart), Ok(Accepted)),
        (
            stopping(StoppingReason::FailureCleanup),
            Ok(AlreadySatisfied),
        ),
        (
            stopping(StoppingReason::ExplicitStop),
            Err(OperationInProgress),
        ),
        (
            stopping(StoppingReason::DaemonShutdown),
            Err(OperationRejected),
        ),
    ] {
        assert_eq!(verdict(&mut control, stop), expected);
        assert!(!control.launch_demand);
    }
    for phase in [ServerPhase::Starting, ServerPhase::Running] {
        let mut control = in_phase(phase);
        let handled = handle(&mut control, stop);
        assert_eq!(handled.effect, MutationEffect::StopOwned);
        assert_eq!(control.lifecycle.phase, ServerPhase::Stopping);
        assert_eq!(control.lifecycle.phase_started_at, 9);
        assert_eq!(
            control.stopping_reason,
            Some(StoppingReason::ExplicitStop)
        );
    }
}

#[test]
fn restarts_are_met_by_the_phase() {
    let restart = MutationOperation::Restart;
    assert_eq!(verdict(&mut control(), restart), Err(OperationRejected));
    for (mut control, expected) in [
        (in_phase(ServerPhase::Reconciling), Err(OperationInProgress)),
        (in_phase(ServerPhase::Stopped), Err(OperationRejected)),
        (in_phase(ServerPhase::Cooldown), Err(OperationRejected)),
        (in_phase(ServerPhase::Starting), Ok(Accepted)),
        (in_phase(ServerPhase::Running), Ok(Accepted)),
        (
            in_phase(ServerPhase::External),
            Err(ExternalBackendNotOwned),
        ),
        (
            in_phase(ServerPhase::Conflict),
            Err(ConflictingBackendEvidence),
        ),
        (stopping(StoppingReason::AutomaticIdle), Ok(Accepted)),
        (
            stopping(StoppingReason::FailureCleanup),
            Err(OperationRejected),
        ),
        (
            stopping(StoppingReason::ExplicitStop),
            Err(OperationInProgress),
        ),
        (
            stopping(StoppingReason::ExplicitRestart),
            Err(OperationInProgress),
        ),
        (
            stopping(StoppingReason::DaemonShutdown),
            Err(OperationRejected),
        ),
    ] {
        assert_eq!(verdict(&mut control, restart), expected);
        if expected.is_ok() {
            assert!(control.launch_demand);
            assert_eq!(control.lifecycle.phase, ServerPhase::Stopping);
            assert_eq!(
                control.stopping_reason,
                Some(StoppingReason::ExplicitRestart)
            );
        }
    }
}

#[test]
fn repeated_requests_get_the_same_answer() {
    let mut control = in_phase(ServerPhase::Stopped);
    let start = request(MutationOperation::Start, "a", 0);
    let first = control.handle_mutation(&start, &mut AdmissionGate::pending(), 1);
    let first = first.reply.unwrap().unwrap();
    assert_eq!(first.command_revision, 1);
    assert_eq!(first.server_id, "survival");
    let lifecycle = control.lifecycle;
    let again = control
        .handle_mutation(&start, &mut AdmissionGate::pending(), 2)
        .reply
        .unwrap()
        .unwrap();
    assert_eq!(again.command_revision, 1);
    assert_eq!(again.request_id, "a");
    assert_eq!(control.lifecycle, lifecycle);

    let conflicting = request(MutationOperation::Stop, "a", 1);
    let reply = control.handle_mutation(&conflicting, &mut AdmissionGate::pending(), 3);
    assert_eq!(
        reply.reply.unwrap().err(),
        Some(MutationError::RequestIdConflict)
    );
    let stale = request(MutationOperation::Stop, "b", 0);
    let reply = control.handle_mutation(&stale, &mut AdmissionGate::pending(), 3);
    assert_eq!(
        reply.reply.unwrap().err(),
        Some(MutationError::StaleCommandRevision)
    );
}

#[test]
fn withdrawn_requests_do_nothing() {
    let mut control = in_phase(ServerPhase::Stopped);
    let before = control.lifecycle;
    let mut gate = AdmissionGate::pending();
    assert!(gate.cancel());
    let handled =
        control.handle_mutation(&request(MutationOperation::Start, "a", 0), &mut gate, 1);
    assert!(handled.reply.is_none());
    assert_eq!(handled.effect, MutationEffect::Nothing);
    assert_eq!(control.lifecycle, before);
    assert!(!control.launch_demand);
}

#[test]
fn exhausted_counters_are_fatal() {
    let mut control = in_phase(ServerPhase::Stopped);
    control.lifecycle.command_revision = u64::MAX;
    let reply = handle(&mut control, MutationOperation::Start).reply.unwrap();
    assert_eq!(reply.err(), Some(MutationError::InternalFailure));
    assert!(control.fatal_raised);
    assert!(control.shutdown_pending(false, false));
    assert_eq!(
        control.terminal_result(),
        Err("lifecycle command revision exhausted".to_owned())
    );
    let mut control = in_phase(ServerPhase::Reconciling);
    control.lifecycle.launch_generation = u64::MAX;
    assert_eq!(
        run_after_gate(&mut control, FinalGateOutcome::Launch),
        RunStep::Finish
    );
    assert_eq!(
        control.terminal_result(),
        Err("lifecycle launch generation exhausted".to_owned())
    );
}

#[test]
fn probes_are_classified() {
    for (rcon, backend, expected) in [
        (RconProbeClassification::Authenticated, BackendProbeClassification::Connected, ReconciliationClassification::FullyReady),
        (RconProbeClassification::Authenticated, BackendProbeClassification::Refused, ReconciliationClassification::Positive),
        (RconProbeClassification::AcceptedFailure, BackendProbeClassification::Connected, ReconciliationClassification::Positive),
        (RconProbeClassification::AcceptedFailure, BackendProbeClassification::Inconclusive, ReconciliationClassification::Positive),
        (RconProbeClassification::Refused, BackendProbeClassification::Connected, ReconciliationClassification::Positive),
        (RconProbeClassification::Refused, BackendProbeClassification::Refused, ReconciliationClassification::Clean),
        (RconProbeClassification::Refused, BackendProbeClassification::Inconclusive, ReconciliationClassification::Inconclusive),
        (RconProbeClassification::Inconclusive, BackendProbeClassification::Refused, ReconciliationClassification::Inconclusive),
        (RconProbeClassification::Inconclusive, BackendProbeClassification::Connected, ReconciliationClassification::Positive),
    ] {
        let result = ReconciliationResult::ConfiguredRcon { rcon, backend };
        assert_eq!(result.classification(), expected);
    }
    assert_eq!(CLEAN.classification(), ReconciliationClassification::Clean);
    assert_eq!(READY.classification(), ReconciliationClassification::FullyReady);
    assert_eq!(UNCLEAR.classification(), ReconciliationClassification::Inconclusive);
    assert_eq!(
        classify_backend_attempt(ConnectionAttempt::TimedOut),
        BackendProbeClassification::Inconclusive
    );
    assert_eq!(
        classify_backend_attempt(ConnectionAttempt::Refused),
        BackendProbeClassification::Refused
    );
    assert_eq!(
        classify_rcon_attempt(ConnectionAttempt::Connected, true),
        RconProbeClassification::Authenticated
    );
    assert_eq!(
        classify_rcon_attempt(ConnectionAttempt::Connected, false),
        RconProbeClassification::AcceptedFailure
    );
    assert_eq!(
        classify_rcon_attempt(ConnectionAttempt::Failed, false),
        RconProbeClassification::Inconclusive
    );
}

#[test]
fn startup_reconciliation_launches_only_on_demand_and_clean_ground() {
    let mut last = None;
    let mut control = control();
    control.launch_demand = true;
    let outcome = reconcile_startup(&mut control, &CLEAN, false, &mut last, 3);
    assert_eq!(outcome, StartupReconciliationOutcome::Launch);
    assert_eq!(control.lifecycle.phase, ServerPhase::Stopped);
    assert_eq!(run_after_startup(&control, outcome, false), RunStep::FinalGate);

    let mut control = in_phase(ServerPhase::Reconciling);
    let outcome = reconcile_startup(&mut control, &CLEAN, false, &mut last, 3);
    assert_eq!(outcome, StartupReconciliationOutcome::Idle);
    assert_eq!(run_after_startup(&control, outcome, false), RunStep::AwaitDemand);

    let mut control = in_phase(ServerPhase::Reconciling);
    let outcome = reconcile_startup(&mut control, &READY, false, &mut last, 3);
    assert_eq!(outcome, StartupReconciliationOutcome::Idle);
    assert_eq!(control.lifecycle.phase, ServerPhase::External);
    assert_eq!(
        run_after_startup(&control, outcome, false),
        RunStep::MonitorExternal
    );

    let mut control = in_phase(ServerPhase::Reconciling);
    control.launch_demand = true;
    let outcome = reconcile_startup(&mut control, &HALF_READY, false, &mut last, 3);
    assert_eq!(outcome, StartupReconciliationOutcome::Idle);
    assert_eq!(control.lifecycle.phase, ServerPhase::Conflict);
    assert_eq!(
        control.lifecycle.reconciliation_evidence,
        ReconciliationEvidence::Positive
    );
    assert_eq!(control.lifecycle.launch_generation, 1);
    assert!(last.is_some());

    let mut control = in_phase(ServerPhase::Reconciling);
    assert_eq!(
        reconcile_startup(&mut control, &CLEAN, true, &mut last, 3),
        StartupReconciliationOutcome::Shutdown
    );
}

#[test]
fn positive_evidence_blocks_launches_for_good() {
    let mut last = None;
    let mut control = in_phase(ServerPhase::Conflict);
    control.lifecycle.reconciliation_evidence = ReconciliationEvidence::Positive;
    let prior = control.begin_reconciliation(4);
    assert_eq!(prior, ReconciliationEvidence::Positive);
    assert_eq!(
        reconcile_final_gate(&mut control, prior, &CLEAN, false, &mut last, 5),
        FinalGateOutcome::Blocked
    );
    assert_eq!(control.lifecycle.phase, ServerPhase::Conflict);
    assert_eq!(
        control.lifecycle.reconciliation_evidence,
        ReconciliationEvidence::Positive
    );
    let prior = control.begin_reconciliation(6);
    assert_eq!(
        reconcile_final_gate(&mut control, prior, &READY, false, &mut last, 7),
        FinalGateOutcome::Blocked
    );
    assert_eq!(control.lifecycle.phase, ServerPhase::External);
    assert!(last.is_none());
}

#[test]
fn clean_gates_launch_the_next_generation() {
    let mut last = None;
    let mut control = in_phase(ServerPhase::Stopped);
    control.lifecycle.launch_generation = 4;
    let prior = control.begin_reconciliation(4);
    let outcome = reconcile_final_gate(&mut control, prior, &CLEAN, false, &mut last, 5);
    assert_eq!(outcome, FinalGateOutcome::Launch);
    assert_eq!(
        run_after_gate(&mut control, outcome),
        RunStep::Launch { generation: 5 }
    );
    assert_eq!(
        run_after_launch(&mut control, 5, true, 6),
        RunStep::RunCycle
    );
    assert_eq!(control.lifecycle.phase, ServerPhase::Starting);
    assert_eq!(control.lifecycle.launch_generation, 5);

    let mut control = in_phase(ServerPhase::Reconciling);
    assert_eq!(
        run_after_launch(&mut control, 1, false, 6),
        RunStep::Cooldown {
            retry_at: 6 + 5 * SECOND,
            retry_pending: false
        }
    );
    assert_eq!(control.lifecycle.phase, ServerPhase::Cooldown);
    assert_eq!(
        control.lifecycle.failure,
        Some(FailureCategory::LaunchFailed)
    );
    assert_eq!(control.lifecycle.failure_streak, 1);
}

#[test]
fn proxied_foreign_backends_are_watched() {
    let mut last = None;
    let mut control = in_phase(ServerPhase::External);
    assert_eq!(
        monitor_external_server(&mut control, &READY, false, &mut last, 10, 5),
        ExternalMonitorOutcome::PollAt(15)
    );
    assert_eq!(
        monitor_external_server(&mut control, &CLEAN, true, &mut last, 10, 5),
        ExternalMonitorOutcome::Shutdown
    );
    assert_eq!(
        monitor_external_server(&mut control, &CLEAN, false, &mut last, 10, 5),
        ExternalMonitorOutcome::Conflict
    );
    assert_eq!(control.lifecycle.phase, ServerPhase::Conflict);
    assert_eq!(
        control.lifecycle.reconciliation_evidence,
        ReconciliationEvidence::Positive
    );
    assert_eq!(
        external_monitor_event(SupervisorEvent::Wake(WakeRequest::observed(
            control.lifecycle
        ))),
        ExternalMonitorStep::Wait
    );
    assert_eq!(
        external_monitor_event(SupervisorEvent::Deadline),
        ExternalMonitorStep::Probe
    );
    assert_eq!(
        external_monitor_event(SupervisorEvent::WakeClosed),
        ExternalMonitorStep::Shutdown
    );
}

#[test]
fn demands_are_taken_in_order() {
    let mut control = in_phase(ServerPhase::Stopped);
    assert_eq!(
        demand_before_waiting(&mut control, false, false),
        DemandStep::Wait
    );
    assert_eq!(
        demand_before_waiting(&mut control, false, true),
        DemandStep::Shutdown
    );
    control.launch_demand = true;
    assert_eq!(
        demand_before_waiting(&mut control, true, false),
        DemandStep::Shutdown
    );
    assert!(control.launch_demand);
    assert_eq!(
        demand_before_waiting(&mut control, false, false),
        DemandStep::Demanded
    );
    assert!(!control.launch_demand);
    let fresh = SupervisorEvent::Wake(WakeRequest::observed(control.lifecycle));
    assert_eq!(demand_event(&mut control, fresh), DemandStep::Demanded);
    let outdated = SupervisorEvent::Wake(WakeRequest::observed(LifecycleState {
        launch_generation: 7,
        ..control.lifecycle
    }));
    assert_eq!(demand_event(&mut control, outdated), DemandStep::Wait);
    assert_eq!(
        run_after_demand(&mut control, true, false, 9),
        RunStep::FinalGate
    );
    assert_eq!(
        run_after_demand(&mut control, true, true, 9),
        RunStep::Finish
    );
    assert_eq!(
        run_after_demand(&mut control, false, false, 9),
        RunStep::Finish
    );
    assert_eq!(control.lifecycle.phase_started_at, 9);
}

#[test]
fn requests_come_before_probe_results() {
    let mut control = control();
    let mut wait = ProbeWait::new(true);
    assert_eq!(wait.before_waiting(false), ProbeWaitStep::Wait);
    assert_eq!(wait.before_waiting(true), ProbeWaitStep::Shutdown);
    assert_eq!(
        wait.event(
            &mut control,
            SupervisorEvent::Mutation(MutationEffect::Nothing)
        ),
        ProbeWaitStep::Wait
    );
    assert_eq!(wait.before_waiting(false), ProbeWaitStep::Drain);
    let request = WakeRequest::observed(control.lifecycle);
    assert_eq!(
        wait.drained(&mut control, Some(request), false),
        ProbeWaitStep::Wait
    );
    assert!(control.launch_demand);
    assert_eq!(
        wait.drained(&mut control, None, true),
        ProbeWaitStep::Shutdown
    );
    let mut later = in_phase(ServerPhase::Reconciling);
    let mut wait = ProbeWait::new(false);
    let request = WakeRequest::observed(later.lifecycle);
    assert_eq!(
        wait.event(&mut later, SupervisorEvent::Wake(request)),
        ProbeWaitStep::Wait
    );
    assert!(!later.launch_demand);
}

#[test]
fn cooldowns_end_in_a_launch_or_a_rest() {
    let mut control = in_phase(ServerPhase::Cooldown);
    control.lifecycle.failure = Some(FailureCategory::ExitedBeforeReady);
    control.lifecycle.failure_streak = 1;
    cooldown_begin(&mut control, false);
    assert_eq!(cooldown_shutdown(&mut control, false, 1), None);
    assert_eq!(cooldown_elapsed(&mut control, 10, 9), None);
    let request = WakeRequest::observed(control.lifecycle);
    assert_eq!(
        cooldown_event(&mut control, SupervisorEvent::Wake(request), 9),
        None
    );
    assert!(control.launch_demand);
    let outcome = cooldown_elapsed(&mut control, 10, 10).unwrap();
    assert_eq!(outcome, CooldownOutcome::Launch);
    assert_eq!(run_after_cooldown(&control, outcome, false), RunStep::FinalGate);
    let outcome = cooldown_elapsed(&mut control, 10, 10).unwrap();
    assert_eq!(outcome, CooldownOutcome::Stopped);
    assert_eq!(control.lifecycle.phase, ServerPhase::Stopped);
    assert_eq!(run_after_cooldown(&control, outcome, false), RunStep::AwaitDemand);
    let mut control = in_phase(ServerPhase::Cooldown);
    assert_eq!(
        cooldown_event(&mut control, SupervisorEvent::Shutdown, 9),
        Some(CooldownOutcome::Shutdown)
    );
    assert_eq!(control.lifecycle.phase, ServerPhase::Stopped);
}

#[test]
fn readiness_waits_until_its_deadline() {
    let mut wait = ReadinessWait::new(100, 0);
    assert_eq!(
        wait.next(false, 30, 0),
        ReadinessStep::Attempt { timeout: 30 }
    );
    assert_eq!(
        wait.next(false, 30, 90),
        ReadinessStep::Attempt { timeout: 10 }
    );
    assert_eq!(wait.next(false, 30, 100), ReadinessStep::DeadlineReached);
    assert_eq!(
        wait.next(true, 30, 0),
        ReadinessStep::Done(ReadinessOutcome::Shutdown)
    );
    let warned: Vec<u64> = (1..=61)
        .filter(|_| wait.attempt_failed(2, 0).warn)
        .map(|attempt: u64| attempt)
        .collect();
    assert_eq!(warned, [1, 30, 60]);
    assert_eq!(wait.attempt_failed(20, 90).until, 100);
    assert_eq!(wait.attempt_failed(2, 90).until, 92);
    for (event, expected) in [
        (ReadinessEvent::Connected, Some(ReadinessOutcome::Ready)),
        (ReadinessEvent::Exited, Some(ReadinessOutcome::Exited)),
        (
            ReadinessEvent::WaitFailed,
            Some(ReadinessOutcome::ProcessWaitFailed),
        ),
        (
            ReadinessEvent::WakeClosed,
            Some(ReadinessOutcome::Shutdown),
        ),
        (
            ReadinessEvent::Mutation(MutationEffect::StopOwned),
            Some(ReadinessOutcome::ExplicitMutation),
        ),
        (ReadinessEvent::Mutation(MutationEffect::Nothing), None),
        (ReadinessEvent::Wake, None),
    ] {
        assert_eq!(wait.event(event), expected);
    }
    assert_eq!(deadline_first_look(ChildPoll::Running), None);
    assert_eq!(
        deadline_first_look(ChildPoll::Exited),
        Some(ReadinessOutcome::Exited)
    );
    for (handled, shutdown, child, expected) in [
        (
            MutationEffect::StopOwned,
            true,
            ChildPoll::Exited,
            ReadinessOutcome::ExplicitMutation,
        ),
        (
            MutationEffect::Nothing,
            true,
            ChildPoll::Exited,
            ReadinessOutcome::Shutdown,
        ),
        (
            MutationEffect::Nothing,
            false,
            ChildPoll::Exited,
            ReadinessOutcome::Exited,
        ),
        (
            MutationEffect::Nothing,
            false,
            ChildPoll::Running,
            ReadinessOutcome::StartupTimedOut,
        ),
    ] {
        assert_eq!(
            readiness_deadline_outcome(handled, shutdown, child),
            expected
        );
    }
}

#[test]
fn cycles_follow_readiness() {
    let starting = || {
        let mut control = in_phase(ServerPhase::Starting);
        control.lifecycle.launch_generation = 2;
        control.lifecycle.failure_streak = 1;
        control
    };
    let mut control = starting();
    assert_eq!(
        run_server_cycle(&mut control, ReadinessOutcome::Ready, false, 5),
        CycleStep::Monitor(BackendCycle(2))
    );
    assert_eq!(control.lifecycle.phase, ServerPhase::Running);
    let mut control = starting();
    assert_eq!(
        run_server_cycle(&mut control, ReadinessOutcome::Ready, true, 5),
        CycleStep::StopForShutdown
    );
    let mut control = starting();
    assert_eq!(
        run_server_cycle(&mut control, ReadinessOutcome::Exited, false, 5),
        CycleStep::Finished(CycleOutcome::Failed {
            retry_at: 5 + 10 * SECOND,
            retry_pending: false
        })
    );
    assert_eq!(
        control.lifecycle.failure,
        Some(FailureCategory::ExitedBeforeReady)
    );
    assert_eq!(control.lifecycle.failure_streak, 2);
    for (outcome, expected) in [
        (ReadinessOutcome::StartupTimedOut, CycleStep::StopFailed),
        (
            ReadinessOutcome::ProcessWaitFailed,
            CycleStep::ReapAfterWaitError,
        ),
        (ReadinessOutcome::Shutdown, CycleStep::StopForShutdown),
    ] {
        assert_eq!(
            run_server_cycle(&mut starting(), outcome, false, 5),
            expected
        );
    }
}

#[test]
fn cycles_lead_back_into_the_course() {
    let mut control = in_phase(ServerPhase::Stopping);
    assert_eq!(
        run_after_cycle(&mut control, CycleOutcome::Stopped, false, 4),
        RunStep::AwaitDemand
    );
    assert_eq!(control.lifecycle.phase, ServerPhase::Stopped);
    assert_eq!(
        run_after_cycle(&mut control, CycleOutcome::Restart, false, 5),
        RunStep::FinalGate
    );
    let mut failed = stopping(StoppingReason::DaemonShutdown);
    failed.raise_fatal("first");
    failed.raise_fatal("second");
    assert_eq!(
        run_after_cycle(&mut failed, CycleOutcome::Shutdown, false, 5),
        RunStep::Finish
    );
    assert_eq!(failed.lifecycle.phase, ServerPhase::Stopping);
    assert_eq!(failed.terminal_result(), Err("first".to_owned()));
    assert_eq!(failed.terminal_result(), Ok(()));
}

#[test]
fn shutdowns_call_off_pending_launches() {
    let mut control = stopping(StoppingReason::ExplicitRestart);
    control.launch_demand = true;
    let outcome = stop_explicit_server(&mut control, false, 10);
    assert_eq!(outcome, CycleOutcome::Restart);
    assert_eq!(
        run_after_cycle(&mut control, outcome, true, 11),
        RunStep::Finish
    );
    assert_eq!(control.lifecycle.phase, ServerPhase::Stopped);
    assert_eq!(
        run_after_startup(&control, StartupReconciliationOutcome::Launch, true),
        RunStep::Finish
    );
    assert_eq!(
        run_after_cooldown(&control, CooldownOutcome::Launch, true),
        RunStep::Finish
    );
    assert_eq!(
        run_after_cooldown(&control, CooldownOutcome::Stopped, true),
        RunStep::AwaitDemand
    );
    let external = in_phase(ServerPhase::External);
    assert_eq!(
        run_after_startup(&external, StartupReconciliationOutcome::Idle, true),
        RunStep::MonitorExternal
    );
}

#[test]
fn stable_servers_lose_their_failures() {
    let mut control = running(3);
    control.lifecycle.failure = Some(FailureCategory::ExitedUnexpectedly);
    let mut state = RunningMonitorState::new(
        BackendCycle(1),
        PlayerInspection::ProxyOnly,
        control.lifecycle,
    );
    assert!(state.stability_pending);
    assert_eq!(
        state.event(
            &mut control,
            MonitorEvent::StabilityDue(ChildPoll::Exited)
        ),
        Some(RunningMonitorOutcome::ChildWait(ChildEnd::Exited))
    );
    assert_eq!(control.lifecycle.failure_streak, 3);
    assert_eq!(
        state.event(
            &mut control,
            MonitorEvent::StabilityDue(ChildPoll::Running)
        ),
        None
    );
    assert_eq!(control.lifecycle.failure_streak, 0);
    assert_eq!(control.lifecycle.failure, None);
    assert!(!state.stability_pending);
    assert_eq!(
        state.event(&mut control, MonitorEvent::WakeClosed),
        Some(RunningMonitorOutcome::Shutdown)
    );
    assert_eq!(
        state.event(
            &mut control,
            MonitorEvent::Mutation(MutationEffect::StopOwned)
        ),
        Some(RunningMonitorOutcome::ExplicitMutation)
    );
}

#[test]
fn idle_servers_are_stopped_after_the_whole_idle_time() {
    let mut backend_use = idle_use();
    let state = monitor(false);
    assert_eq!(
        state.advance_running_monitor(false, backend_use.activity_snapshot(), 100, 50),
        MonitorStep::Wait {
            poll_at: None,
            idle_at: Some(100),
            stable_at: None
        }
    );
    assert_eq!(
        state.advance_running_monitor(false, backend_use.activity_snapshot(), 100, 100),
        MonitorStep::AttemptIdleStop { anchor: 0 }
    );
    assert_eq!(
        state.advance_running_monitor(true, backend_use.activity_snapshot(), 100, 100),
        MonitorStep::Shutdown
    );
    assert!(backend_use.establish_login_transfer_session(BackendCycle(1)));
    assert_eq!(
        state.advance_running_monitor(false, backend_use.activity_snapshot(), 100, 200),
        MonitorStep::Wait {
            poll_at: None,
            idle_at: None,
            stable_at: None
        }
    );
    assert_eq!(
        state.acquire_idle_exclusive(false, backend_use.activity_snapshot(), 0),
        Some(RunningMonitorOutcome::Continue)
    );
    assert!(backend_use.end_login_transfer_session(BackendCycle(1), 200));
    assert_eq!(
        state.effective_idle_anchor(backend_use.activity_snapshot()),
        Some(200)
    );
    assert!(state.idle_disturbed(backend_use.activity_snapshot(), 200, 100, 299));
    assert!(!state.idle_disturbed(backend_use.activity_snapshot(), 200, 100, 300));
    let mut control = running(0);
    assert!(state.idle_stop_still_due(
        control.lifecycle,
        backend_use.activity_snapshot(),
        200,
        100,
        300
    ));
    assert!(!state.idle_stop_still_due(
        in_phase(ServerPhase::Stopping).lifecycle,
        backend_use.activity_snapshot(),
        200,
        100,
        300
    ));
    assert_eq!(
        state.attempt_expired_idle_stop(&mut control, false, ChildPoll::Exited, 301),
        RunningMonitorOutcome::ChildWait(ChildEnd::Exited)
    );
    assert_eq!(
        state.attempt_expired_idle_stop(&mut control, false, ChildPoll::Running, 301),
        RunningMonitorOutcome::Committed
    );
    assert_eq!(control.lifecycle.phase, ServerPhase::Stopping);
    assert_eq!(
        control.stopping_reason,
        Some(StoppingReason::AutomaticIdle)
    );
    assert_eq!(
        state.attempt_expired_idle_stop(&mut control, false, ChildPoll::Running, 302),
        RunningMonitorOutcome::Continue
    );
}

#[test]
fn idle_stops_are_looked_at_once_more() {
    let backend_use = idle_use();
    let lifecycle = running(0).lifecycle;
    let look = |state: &mut RunningMonitorState, shutdown_due, child, now| {
        let activity = backend_use.activity_snapshot();
        state.check_idle_stop(lifecycle, activity, 0, 100, shutdown_due, child, 2, now)
    };
    let mut state = monitor(false);
    assert_eq!(
        look(&mut state, false, ChildPoll::Running, 99),
        IdleStopStep::GiveUp(RunningMonitorOutcome::Continue)
    );
    assert_eq!(
        look(&mut state, true, ChildPoll::Running, 100),
        IdleStopStep::GiveUp(RunningMonitorOutcome::Shutdown)
    );
    assert_eq!(
        look(&mut state, false, ChildPoll::Exited, 100),
        IdleStopStep::GiveUp(RunningMonitorOutcome::ChildWait(ChildEnd::Exited))
    );
    assert_eq!(
        look(&mut state, false, ChildPoll::Running, 100),
        IdleStopStep::Commit
    );
    let mut state = monitor(true);
    state.player_inspection = PlayerInspection::ConfiguredRcon {
        connected: true,
        next_poll: 150,
        zero_anchor: Some(0),
    };
    assert_eq!(
        look(&mut state, false, ChildPoll::Running, 100),
        IdleStopStep::AskConsole
    );
    assert_eq!(
        look(&mut state, false, ChildPoll::Running, 100),
        IdleStopStep::GiveUp(RunningMonitorOutcome::Continue)
    );
    assert_eq!(
        state.player_inspection,
        PlayerInspection::ConfiguredRcon {
            connected: false,
            next_poll: 102,
            zero_anchor: None
        }
    );
}

#[test]
fn consoles_must_confirm_that_nobody_plays() {
    let backend_use = idle_use();
    let mut state = monitor(true);
    assert_eq!(
        state.effective_idle_anchor(backend_use.activity_snapshot()),
        None
    );
    assert_eq!(
        state.advance_running_monitor(false, backend_use.activity_snapshot(), 100, 0),
        MonitorStep::PollPlayers
    );
    assert_eq!(
        state.confirm_idle_player_state(2, 10),
        ConfirmationStart::Veto
    );
    assert_eq!(state.poll_player_presence(), PollStep::Connect);
    state.poll_connected(true, 2, 10);
    assert_eq!(state.poll_player_presence(), PollStep::Ask);
    let zero =
        CommandReply::Response("There are 0 of a max of 20 players online: ".to_owned());
    state.poll_answered(&zero, 2, 60, 20);
    state.poll_answered(&zero, 2, 60, 30);
    assert_eq!(
        state.effective_idle_anchor(backend_use.activity_snapshot()),
        Some(20)
    );
    assert_eq!(
        state.confirm_idle_player_state(2, 120),
        ConfirmationStart::AskConsole
    );
    assert!(state.final_rcon_player_check(&zero, 2, 60, 120));
    let one =
        CommandReply::Response("There are 1 of a max of 20 players online: Ann".to_owned());
    assert!(!state.final_rcon_player_check(&one, 2, 60, 120));
    assert_eq!(
        state.player_inspection,
        PlayerInspection::ConfiguredRcon {
            connected: true,
            next_poll: 180,
            zero_anchor: None
        }
    );
    assert!(!state.final_rcon_player_check(&CommandReply::TimedOut, 2, 60, 120));
    assert_eq!(
        state.player_inspection,
        PlayerInspection::ConfiguredRcon {
            connected: false,
            next_poll: 122,
            zero_anchor: None
        }
    );
    state.poll_connected(true, 2, 130);
    state.poll_answered(&zero, 2, 60, 130);
    let unreadable = CommandReply::Response("Unknown command".to_owned());
    state.poll_answered(&unreadable, 2, 60, 140);
    assert_eq!(
        state.effective_idle_anchor(backend_use.activity_snapshot()),
        None
    );
    state.poll_answered(&CommandReply::Failed, 2, 60, 150);
    assert_eq!(state.poll_player_presence(), PollStep::Connect);
}

#[test]
fn player_counts_are_read_strictly() {
    for (response, expected) in [
        ("There are 3 of a max of 20 players online: a, b, c", Ok(3)),
        ("There are 0 of a max of 20 players online:", Ok(0)),
        (
            "There is 1 of a max of 20 players online:",
            Err(PlayerCountError::MissingPrefix),
        ),
        (
            " There are 1 of a max of 20 players online:",
            Err(PlayerCountError::MissingPrefix),
        ),
        (
            "There are 1 of 20 players online:",
            Err(PlayerCountError::UnknownFormat),
        ),
        (
            "There are 1 of a max of 20 players",
            Err(PlayerCountError::UnknownFormat),
        ),
        (
            "There are 1 of a max of many players online:",
            Err(PlayerCountError::InvalidMaximum(
                "invalid digit found in string".to_owned(),
            )),
        ),
        (
            "There are -1 of a max of 20 players online:",
            Err(PlayerCountError::CountOutOfRange(
                "invalid digit found in string".to_owned(),
            )),
        ),
        (
            "There are  of a max of 20 players online:",
            Err(PlayerCountError::CountOutOfRange(
                "cannot parse integer from empty string".to_owned(),
            )),
        ),
        (
            "There are 4294967296 of a max of 20 players online:",
            Err(PlayerCountError::CountOutOfRange(
                "number too large to fit in target type".to_owned(),
            )),
        ),
    ] {
        assert_eq!(parse_player_count(response), expected, "{response}");
    }
    assert_eq!(
        PlayerCountError::UnknownFormat.message(),
        "RCON player count has an unknown format"
    );
    assert_eq!(
        parse_player_count("There are 1 of a max of many players online:")
            .unwrap_err()
            .message(),
        "RCON maximum player count is invalid: invalid digit found in string"
    );
    assert_eq!(
        parse_player_count("There are 4294967296 of a max of 20 players online:")
            .unwrap_err()
            .message(),
        "RCON player count is outside the supported range: number too large to fit in target type"
    );
}

#[test]
fn quiescence_needs_rest_and_sole_use() {
    let mut control = stopping(StoppingReason::ExplicitStop);
    let mut state = Quiescence::new(false);
    let mut take = |state: &mut Quiescence, event| {
        state.quiesce_runtime_and_acquire_exclusive(&mut control, event)
    };
    assert_eq!(
        take(&mut state, QuiescenceEvent::Acquired),
        QuiescenceStep::Wait
    );
    assert_eq!(
        take(&mut state, QuiescenceEvent::Acknowledged),
        QuiescenceStep::Acquire
    );
    assert_eq!(
        take(
            &mut state,
            QuiescenceEvent::ChildEnded(ChildEnd::WaitFailed)
        ),
        QuiescenceStep::Wait
    );
    assert_eq!(
        take(&mut state, QuiescenceEvent::Acquired),
        QuiescenceStep::Done
    );
    assert_eq!(state.child_end, Some(ChildEnd::WaitFailed));
    assert_eq!(
        take(&mut state, QuiescenceEvent::Deadline),
        QuiescenceStep::Failed(QuiescenceError::AcquisitionTimedOut)
    );
    let mut state = Quiescence::new(true);
    assert_eq!(
        take(&mut state, QuiescenceEvent::AcknowledgementClosed),
        QuiescenceStep::Failed(QuiescenceError::AcknowledgementClosed)
    );
    let mut state = Quiescence::new(true);
    assert_eq!(
        take(&mut state, QuiescenceEvent::Shutdown),
        QuiescenceStep::Wait
    );
    assert_eq!(
        take(&mut state, QuiescenceEvent::AcknowledgementClosed),
        QuiescenceStep::Wait
    );
    assert_eq!(state.before_waiting(false), QuiescenceStep::Wait);
    assert_eq!(state.before_waiting(true), QuiescenceStep::Done);
    assert_eq!(
        QuiescenceError::QuiescenceTimedOut.describe(""),
        "runtime quiescence timed out"
    );
    assert_eq!(
        QuiescenceError::AcknowledgementClosed.describe("channel closed"),
        "runtime quiescence acknowledgement channel closed: channel closed"
    );
}

#[test]
fn failed_quiescence_ends_the_supervisor() {
    let mut control = stopping(StoppingReason::ExplicitStop);
    let quiesced = Err("runtime quiescence timed out".to_owned());
    assert_eq!(
        explicit_stop_step(&mut control, &quiesced),
        ExplicitStopStep::StopForShutdown
    );
    assert!(control.fatal_raised);
    let mut state = Quiescence::new(true);
    assert_eq!(
        state.quiesce_runtime_and_acquire_exclusive(
            &mut control,
            QuiescenceEvent::MutationHandled
        ),
        QuiescenceStep::Failed(QuiescenceError::FatalDuringQuiescence)
    );
    assert!(stop_for_shutdown(&mut control, 9));
    assert_eq!(
        control.stopping_reason,
        Some(StoppingReason::DaemonShutdown)
    );
    let cause = "explicit lifecycle mutation could not safely quiesce proxy use: runtime \
                 quiescence timed out";
    assert_eq!(
        fatal_shutdown_cleanup(&mut control, false, &None),
        Ok(CycleOutcome::Shutdown)
    );
    assert_eq!(
        control.terminal_result(),
        Err(format!(
            "runtime drain or backend-use exclusivity remained uncertain during fatal cleanup: \
             {cause}"
        ))
    );
    let mut control = stopping(StoppingReason::ExplicitStop);
    control.raise_fatal("why");
    assert_eq!(
        fatal_shutdown_cleanup(&mut control, true, &Some("stuck".to_owned())),
        Err("forced process cleanup failed during fatal shutdown: stuck: why".to_owned())
    );
}

#[test]
fn explicit_stops_go_by_what_became_of_the_process() {
    let mut control = stopping(StoppingReason::ExplicitRestart);
    let mut state = Quiescence::new(true);
    assert_eq!(
        explicit_stop_step(&mut control, &Ok(state)),
        ExplicitStopStep::StopAndReap
    );
    state.child_end = Some(ChildEnd::Exited);
    assert_eq!(
        explicit_stop_step(&mut control, &Ok(state)),
        ExplicitStopStep::Reaped
    );
    state.child_end = Some(ChildEnd::WaitFailed);
    assert_eq!(
        explicit_stop_step(&mut control, &Ok(state)),
        ExplicitStopStep::ForceAfterWaitError
    );
    assert!(!control.fatal_raised);
    assert!(!stop_for_shutdown(&mut control, 9));
    assert_eq!(control.lifecycle.phase, ServerPhase::Stopping);
}

#[test]
fn stops_tell_the_server_before_they_end_it() {
    let delivered = StopSequence::graceful(true)
        .advance(StopEvent::RconTold(RconStopAttempt::Delivered));
    assert!(matches!(delivered, StopSequence::AwaitExit));
    let done = delivered.advance(StopEvent::ExitAwaited(ReapOutcome::Exited));
    assert!(matches!(done, StopSequence::Finished(Ok(()))));

    let uncertain = StopSequence::graceful(true)
        .advance(StopEvent::RconTold(RconStopAttempt::DeliveryTimedOut));
    assert!(matches!(uncertain, StopSequence::AwaitExit));
    let overdue = uncertain.advance(StopEvent::ExitAwaited(ReapOutcome::TimedOut));
    assert!(matches!(
        overdue,
        StopSequence::Terminate {
            wait_error: None,
            forced: false
        }
    ));

    let fallback = StopSequence::graceful(true)
        .advance(StopEvent::RconTold(RconStopAttempt::SessionFailed));
    assert!(matches!(
        fallback,
        StopSequence::TellConsole {
            attempt: RconStopAttempt::SessionFailed
        }
    ));
    let told = fallback.advance(StopEvent::ConsoleTold(true));
    let failed = told.advance(StopEvent::ExitAwaited(ReapOutcome::Failed("e".to_owned())));
    let terminated = failed.advance(StopEvent::Terminated(Ok(())));
    let finished = terminated.advance(StopEvent::Reaped(ReapOutcome::Exited));
    assert!(matches!(
        finished,
        StopSequence::Finished(Err(text))
            if text == "failed while waiting for graceful server shutdown: e"
    ));

    let silent = StopSequence::graceful(false).advance(StopEvent::ConsoleTold(false));
    assert!(matches!(
        silent,
        StopSequence::Terminate {
            wait_error: None,
            forced: false
        }
    ));
}

#[test]
fn forced_stops_tell_nobody() {
    let sequence = StopSequence::forced();
    assert!(matches!(
        sequence,
        StopSequence::Terminate {
            wait_error: None,
            forced: true
        }
    ));
    let unmoved = sequence.advance(StopEvent::ConsoleTold(true));
    assert!(matches!(unmoved, StopSequence::Terminate { .. }));
    let terminated = unmoved.advance(StopEvent::Terminated(Ok(())));
    let finished = terminated.advance(StopEvent::Reaped(ReapOutcome::TimedOut));
    assert!(matches!(
        finished,
        StopSequence::Finished(Err(text))
            if text == "server process did not exit after forced termination"
    ));
}

#[test]
fn explicit_stops_forget_failures_and_restarts_keep_them() {
    let failing = |reason| {
        let mut control = stopping(reason);
        control.lifecycle.failure = Some(FailureCategory::StartupTimedOut);
        control.lifecycle.failure_streak = 2;
        control
    };
    let mut control = failing(StoppingReason::ExplicitStop);
    let request = WakeRequest::observed(control.lifecycle);
    assert!(!wait_for_explicit_cleanup(
        &mut control,
        false,
        SupervisorEvent::Wake(request)
    ));
    assert_eq!(
        stop_explicit_server(&mut control, false, 5),
        CycleOutcome::Restart
    );
    assert_eq!(control.lifecycle.failure_streak, 0);
    assert_eq!(control.stopping_reason, None);
    let mut control = failing(StoppingReason::ExplicitRestart);
    control.launch_demand = true;
    assert_eq!(
        stop_explicit_server(&mut control, false, 5),
        CycleOutcome::Restart
    );
    assert_eq!(control.lifecycle.failure_streak, 2);
    let mut control = failing(StoppingReason::ExplicitRestart);
    control.launch_demand = true;
    assert!(wait_for_explicit_cleanup(
        &mut control,
        false,
        SupervisorEvent::Shutdown
    ));
    assert_eq!(
        stop_explicit_server(&mut control, true, 5),
        CycleOutcome::Shutdown
    );
    assert!(!control.launch_demand);
    let mut control = failing(StoppingReason::ExplicitStop);
    assert_eq!(
        stop_explicit_server(&mut control, false, 5),
        CycleOutcome::Stopped
    );
}

#[test]
fn failed_starts_cool_down() {
    let mut control = in_phase(ServerPhase::Starting);
    let delay = control.begin_failure_cleanup(FailureCategory::StartupTimedOut, 3);
    assert_eq!(delay, 5 * SECOND);
    let request = WakeRequest::observed(control.lifecycle);
    assert!(!failed_cleanup_event(
        &mut control,
        false,
        SupervisorEvent::Wake(request)
    ));
    assert_eq!(
        finish_failed_cleanup(&mut control, false, delay, 10),
        CycleOutcome::Failed {
            retry_at: 10 + 5 * SECOND,
            retry_pending: true
        }
    );
    assert_eq!(control.lifecycle.phase, ServerPhase::Cooldown);
    let mut control = stopping(StoppingReason::FailureCleanup);
    assert!(failed_cleanup_event(
        &mut control,
        false,
        SupervisorEvent::WakeClosed
    ));
    assert_eq!(
        finish_failed_cleanup(&mut control, true, delay, 10),
        CycleOutcome::Shutdown
    );
    assert_eq!(control.lifecycle.phase, ServerPhase::Stopping);
}

#[test]
fn idle_stops_are_followed_by_what_was_asked_for() {
    let mut control = stopping(StoppingReason::AutomaticIdle);
    let mut cleanup = IdleCleanup::new();
    let outdated = WakeRequest::observed(running(0).lifecycle);
    cleanup.wait_for_idle_cleanup(&mut control, SupervisorEvent::Wake(outdated));
    cleanup.late_wake(&control, outdated);
    assert!(!cleanup.restart);
    assert_eq!(
        cleanup.stop_committed_idle_server(&mut control, false, 5),
        CycleOutcome::Stopped
    );
    let request = WakeRequest::observed(control.lifecycle);
    cleanup.wait_for_idle_cleanup(&mut control, SupervisorEvent::Wake(request));
    assert!(cleanup.restart);
    assert!(control.launch_demand);
    control.launch_demand = false;
    cleanup.wait_for_idle_cleanup(
        &mut control,
        SupervisorEvent::Mutation(MutationEffect::Nothing),
    );
    assert!(!cleanup.restart);
    cleanup.late_wake(&control, request);
    assert_eq!(
        cleanup.stop_committed_idle_server(&mut control, true, 5),
        CycleOutcome::Shutdown
    );
    assert_eq!(control.lifecycle.phase, ServerPhase::Stopping);
    assert_eq!(
        cleanup.stop_committed_idle_server(&mut control, false, 5),
        CycleOutcome::Restart
    );
    assert_eq!(control.lifecycle.phase, ServerPhase::Stopped);
}

#[test]
fn servers_are_told_to_stop_once() {
    for (attempt, needed) in [
        (RconStopAttempt::NotConfigured, true),
        (RconStopAttempt::SessionFailed, true),
        (RconStopAttempt::SessionTimedOut, true),
        (RconStopAttempt::Delivered, false),
        (RconStopAttempt::DeliveryFailed, false),
        (RconStopAttempt::DeliveryTimedOut, false),
    ] {
        assert_eq!(console_stop_needed(attempt), needed);
    }
    assert_eq!(
        graceful_stop_delivery(RconStopAttempt::DeliveryTimedOut, false),
        GracefulStopDelivery::Uncertain
    );
    assert_eq!(
        graceful_stop_delivery(RconStopAttempt::NotConfigured, true),
        GracefulStopDelivery::Sent
    );
    assert_eq!(
        graceful_stop_delivery(RconStopAttempt::SessionFailed, false),
        GracefulStopDelivery::NotSent
    );
    assert!(waits_for_graceful_stop(GracefulStopDelivery::Uncertain));
    assert!(!waits_for_graceful_stop(GracefulStopDelivery::NotSent));
}

#[test]
fn reaping_has_exact_results() {
    assert!(matches!(
        graceful_wait_result(ReapOutcome::Exited),
        GracefulWait::Done
    ));
    assert!(matches!(
        graceful_wait_result(ReapOutcome::Failed("e".to_owned())),
        GracefulWait::Terminate { wait_error: Some(error) } if error == "e"
    ));
    assert!(matches!(
        graceful_wait_result(ReapOutcome::TimedOut),
        GracefulWait::Terminate { wait_error: None }
    ));
    assert_eq!(stop_and_reap(ReapOutcome::Exited, Ok(()), None, false), Ok(()));
    assert_eq!(
        stop_and_reap(ReapOutcome::Exited, Ok(()), Some("e".to_owned()), false).unwrap_err(),
        "failed while waiting for graceful server shutdown: e"
    );
    assert_eq!(
        stop_and_reap(
            ReapOutcome::Exited,
            Err("t".to_owned()),
            Some("e".to_owned()),
            false
        )
        .unwrap_err(),
        "t"
    );
    assert_eq!(
        stop_and_reap(
            ReapOutcome::Failed("f".to_owned()),
            Err("t".to_owned()),
            None,
            false
        )
        .unwrap_err(),
        "failed to reap the server process: f"
    );
    assert_eq!(
        stop_and_reap(ReapOutcome::TimedOut, Ok(()), None, false).unwrap_err(),
        "server process did not exit after termination"
    );
    assert_eq!(
        stop_and_reap(ReapOutcome::TimedOut, Ok(()), None, true).unwrap_err(),
        "server process did not exit after forced termination"
    );
    assert_eq!(
        stop_and_reap(ReapOutcome::Exited, Err("t".to_owned()), None, true).unwrap_err(),
        "t"
    );
}

#[test]
fn failed_cleanups_tell_the_whole_story() {
    let forced = Some("stuck".to_owned());
    let mut control = stopping(StoppingReason::ExplicitStop);
    assert_eq!(
        explicit_wait_failed(&mut control, "ECHILD", &None),
        "failed to wait for the server process: ECHILD"
    );
    assert!(control.fatal_raised);
    assert_eq!(
        explicit_wait_failed(&mut control, "ECHILD", &forced),
        "failed to wait for the server process; forced cleanup also failed: stuck: ECHILD"
    );
    assert_eq!(
        explicit_cleanup_failed(&mut control, "x", &None),
        "explicit lifecycle cleanup or reap failed: x"
    );
    assert_eq!(
        explicit_cleanup_failed(&mut control, "x", &forced),
        "forced cleanup also failed: stuck: explicit lifecycle cleanup or reap failed: x"
    );
    assert_eq!(
        stop_failed_server(&mut control, "x".to_owned(), &forced),
        "forced cleanup also failed after failure cleanup: stuck: x"
    );
    assert_eq!(
        idle_cleanup_failed(&mut control, "x".to_owned(), &forced),
        "forced cleanup also failed after automatic idle cleanup: stuck: x"
    );
    assert_eq!(
        idle_cleanup_failed(&mut control, "x".to_owned(), &None),
        "x"
    );
    assert_eq!(
        shutdown_cleanup_failed("x", &None),
        "server shutdown cleanup initially failed: x"
    );
    assert_eq!(
        shutdown_cleanup_failed("x", &forced),
        "server shutdown cleanup failed; forced cleanup also failed: stuck: x"
    );
    let cleanup = Some("c".to_owned());
    assert_eq!(
        reap_after_wait_error(&mut control, "w", &cleanup, &None, 5),
        "cleanup failed after server process wait error: c: w"
    );
    assert_eq!(
        reap_after_wait_error(&mut control, "w", &cleanup, &forced, 5),
        "cleanup failed after server process wait error: c; forced cleanup also failed: stuck: w"
    );
    assert_eq!(control.lifecycle.phase, ServerPhase::Stopping);
    assert_eq!(
        reap_after_wait_error(&mut control, "w", &None, &None, 5),
        "failed to wait for the server process: w"
    );
    assert_eq!(control.lifecycle.phase, ServerPhase::Stopped);
}

#[test]
fn logins_are_heard_in_every_resting_phase() {
    let stopped = in_phase(ServerPhase::Stopped).lifecycle;
    assert!(WakeRequest::observed(stopped).can_start(stopped));
    let stopping = in_phase(ServerPhase::Stopping).lifecycle;
    assert!(WakeRequest::observed(stopping).requests_restart(stopping));
    let mut cooling = in_phase(ServerPhase::Cooldown).lifecycle;
    cooling.failure = Some(FailureCategory::LaunchFailed);
    assert!(WakeRequest::observed(cooling).requests_retry(cooling));
    let conflict = in_phase(ServerPhase::Conflict).lifecycle;
    assert!(WakeRequest::observed(conflict).requests_conflict_reconciliation(conflict));
}

#[test]
fn stops_cancel_a_restart_only_during_cleanup() {
    let mut control = stopping(StoppingReason::ExplicitRestart);
    control.launch_demand = true;
    assert_eq!(
        verdict(&mut control, MutationOperation::Stop),
        Ok(MutationDisposition::Accepted)
    );
    assert!(!control.launch_demand);
    assert_eq!(control.stopping_reason, Some(StoppingReason::ExplicitStop));
    assert_eq!(
        stop_explicit_server(&mut control, false, 10),
        CycleOutcome::Stopped
    );

    let mut control = in_phase(ServerPhase::Reconciling);
    assert_eq!(
        verdict(&mut control, MutationOperation::Stop),
        Err(MutationError::OperationInProgress)
    );
    assert_eq!(control.lifecycle.command_revision, 0);
}

#[test]
fn restarts_look_at_the_backend_before_launching() {
    let mut control = stopping(StoppingReason::ExplicitRestart);
    control.launch_demand = true;
    let outcome = stop_explicit_server(&mut control, false, 10);
    assert_eq!(outcome, CycleOutcome::Restart);
    assert_eq!(
        run_after_cycle(&mut control, outcome, false, 10),
        RunStep::FinalGate
    );
    let evidence = control.begin_reconciliation(10);
    for (result, next) in [
        (UNCLEAR, RunStep::AwaitDemand),
        (READY, RunStep::MonitorExternal),
        (CLEAN, RunStep::Launch { generation: 1 }),
    ] {
        let mut control = in_phase(ServerPhase::Reconciling);
        let gate = reconcile_final_gate(&mut control, evidence, &result, false, &mut None, 11);
        assert_eq!(run_after_gate(&mut control, gate), next);
    }
}
