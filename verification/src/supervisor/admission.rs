//! The operator's requests to start, stop or restart a server: which of them are admitted,
//! what they change and what they are answered.

use vstd::prelude::*;

use super::lifecycle::{
    LifecycleState, Nanos, ReconciliationEvidence, ServerPhase,
};

verus! {

/// How many undecided requests a server's mailbox holds.
pub const MUTATION_QUEUE_CAPACITY: usize = 32;

/// What the operator asks for.
#[derive(Clone, Copy, Debug, PartialEq, Eq, Structural)]
pub enum MutationOperation {
    Start,
    Stop,
    Restart,
}

impl MutationOperation {
    /// The name of the operation, in mathematical form.
    pub open spec fn name(self) -> Seq<char> {
        match self {
            MutationOperation::Start => "start"@,
            MutationOperation::Stop => "stop"@,
            MutationOperation::Restart => "restart"@,
        }
    }

    /// The name of the operation.
    pub fn as_str(self) -> (name: &'static str)
        ensures
            name@ == self.name(),
    {
        match self {
            MutationOperation::Start => "start",
            MutationOperation::Stop => "stop",
            MutationOperation::Restart => "restart",
        }
    }
}

/// How an admitted request was met.
#[derive(Clone, Copy, Debug, PartialEq, Eq, Structural)]
pub enum MutationDisposition {
    Accepted,
    AlreadySatisfied,
}

impl MutationDisposition {
    /// The name of the disposition, in mathematical form.
    pub open spec fn name(self) -> Seq<char> {
        match self {
            MutationDisposition::Accepted => "accepted"@,
            MutationDisposition::AlreadySatisfied => "already_satisfied"@,
        }
    }

    /// The name of the disposition.
    pub fn as_str(self) -> (name: &'static str)
        ensures
            name@ == self.name(),
    {
        match self {
            MutationDisposition::Accepted => "accepted",
            MutationDisposition::AlreadySatisfied => "already_satisfied",
        }
    }
}

/// The answer to an admitted request.
#[derive(Clone, Debug)]
pub struct MutationSuccess {
    pub server_id: String,
    pub operation: MutationOperation,
    pub request_id: String,
    pub command_revision: u64,
    pub disposition: MutationDisposition,
}

/// A [`MutationSuccess`] with its texts as sequences of characters.
pub struct SuccessView {
    pub server_id: Seq<char>,
    pub operation: MutationOperation,
    pub request_id: Seq<char>,
    pub command_revision: u64,
    pub disposition: MutationDisposition,
}

impl View for MutationSuccess {
    type V = SuccessView;

    open spec fn view(&self) -> SuccessView {
        SuccessView {
            server_id: self.server_id@,
            operation: self.operation,
            request_id: self.request_id@,
            command_revision: self.command_revision,
            disposition: self.disposition,
        }
    }
}

impl MutationSuccess {
    /// The same answer once more.
    pub fn duplicate(&self) -> (copy: MutationSuccess)
        ensures
            copy@ == self@,
    {
        MutationSuccess {
            server_id: self.server_id.clone(),
            operation: self.operation,
            request_id: self.request_id.clone(),
            command_revision: self.command_revision,
            disposition: self.disposition,
        }
    }
}

/// Why a request is not admitted.
#[derive(Clone, Copy, Debug, PartialEq, Eq, Structural)]
pub enum MutationError {
    OperationRejected,
    ExternalBackendNotOwned,
    ConflictingBackendEvidence,
    OperationInProgress,
    StaleCommandRevision,
    RequestIdConflict,
    InternalFailure,
}

/// The answer to a request.
pub type MutationReply = Result<MutationSuccess, MutationError>;

/// Who decided about a request first: the client that gave up on it, or the supervisor that
/// admitted it. Once decided, it stays decided.
#[derive(Clone, Copy, Debug, PartialEq, Eq, Structural)]
pub enum AdmissionGate {
    Pending,
    Cancelled,
    Admitted,
}

impl AdmissionGate {
    /// An undecided gate.
    pub fn pending() -> (gate: AdmissionGate)
        ensures
            gate == AdmissionGate::Pending,
    {
        AdmissionGate::Pending
    }

    /// Withdraws the request; says whether that came in time.
    pub fn cancel(&mut self) -> (won: bool)
        ensures
            won == (*old(self) == AdmissionGate::Pending),
            *final(self) == (if won {
                AdmissionGate::Cancelled
            } else {
                *old(self)
            }),
    {
        if *self == AdmissionGate::Pending {
            *self = AdmissionGate::Cancelled;
            true
        } else {
            false
        }
    }

    /// Admits the request; says whether that came in time.
    pub fn accept(&mut self) -> (won: bool)
        ensures
            won == (*old(self) == AdmissionGate::Pending),
            *final(self) == (if won {
                AdmissionGate::Admitted
            } else {
                *old(self)
            }),
    {
        if *self == AdmissionGate::Pending {
            *self = AdmissionGate::Admitted;
            true
        } else {
            false
        }
    }

    /// Whether the request was withdrawn.
    pub fn is_cancelled(&self) -> (cancelled: bool)
        ensures
            cancelled == (*self == AdmissionGate::Cancelled),
    {
        *self == AdmissionGate::Cancelled
    }

    /// Whether the request was admitted.
    pub fn is_admitted(&self) -> (admitted: bool)
        ensures
            admitted == (*self == AdmissionGate::Admitted),
    {
        *self == AdmissionGate::Admitted
    }
}

/// A request as it reaches the supervisor.
#[derive(Clone, Debug)]
pub struct MutationEnvelope {
    pub operation: MutationOperation,
    pub request_id: String,
    pub expected_command_revision: u64,
}

/// Why an owned server is being stopped.
#[derive(Clone, Copy, Debug, PartialEq, Eq, Structural)]
pub enum StoppingReason {
    AutomaticIdle,
    FailureCleanup,
    ExplicitStop,
    ExplicitRestart,
    DaemonShutdown,
}

/// Whether a reconciliation is the first one or guards a launch.
#[derive(Clone, Copy, Debug, PartialEq, Eq, Structural)]
pub enum ReconciliationMode {
    Initial,
    FinalGate,
}

/// What the supervisor has to do at once because of an admitted request.
#[derive(Clone, Copy, Debug, PartialEq, Eq, Structural)]
pub enum MutationEffect {
    Nothing,
    StopOwned,
}

/// What admitting a request changes.
#[derive(Clone, Copy, Debug, PartialEq, Eq, Structural)]
pub struct AdmissionPlan {
    pub next: LifecycleState,
    pub disposition: MutationDisposition,
    pub effect: MutationEffect,
    pub launch_demand: bool,
    pub stopping_reason: Option<StoppingReason>,
}

/// What the supervisor remembers between the operator's requests, apart from the lifecycle.
#[derive(Clone, Copy, Debug, PartialEq, Eq, Structural)]
pub struct Intent {
    pub launch_demand: bool,
    pub stopping_reason: Option<StoppingReason>,
    pub reconciliation_mode: ReconciliationMode,
}

/// That the server is being stopped for a reason that a start may follow.
pub open spec fn startable_stop(reason: Option<StoppingReason>) -> bool {
    reason == Some(StoppingReason::AutomaticIdle) || reason == Some(StoppingReason::FailureCleanup)
}

/// That the server is being stopped because the operator said so.
pub open spec fn explicit_stop(reason: Option<StoppingReason>) -> bool {
    reason == Some(StoppingReason::ExplicitStop) || reason == Some(StoppingReason::ExplicitRestart)
}

/// That an owned process is up or coming up.
pub open spec fn owned_process(phase: ServerPhase) -> bool {
    phase == ServerPhase::Starting || phase == ServerPhase::Running
}

/// How a start is met.
pub open spec fn start_rule(current: LifecycleState, intent: Intent) -> Result<
    MutationDisposition,
    MutationError,
> {
    match current.phase {
        ServerPhase::External => Err(MutationError::ExternalBackendNotOwned),
        ServerPhase::Running => Ok(MutationDisposition::AlreadySatisfied),
        ServerPhase::Stopped => Ok(MutationDisposition::Accepted),
        ServerPhase::Starting => Err(MutationError::OperationInProgress),
        ServerPhase::Conflict => if current.reconciliation_evidence
            == ReconciliationEvidence::Inconclusive {
            Ok(MutationDisposition::Accepted)
        } else {
            Err(MutationError::ConflictingBackendEvidence)
        },
        ServerPhase::Stopping => if startable_stop(intent.stopping_reason)
            && !intent.launch_demand {
            Ok(MutationDisposition::Accepted)
        } else if startable_stop(intent.stopping_reason) || explicit_stop(intent.stopping_reason) {
            Err(MutationError::OperationInProgress)
        } else {
            Err(MutationError::OperationRejected)
        },
        ServerPhase::Cooldown => if intent.launch_demand {
            Err(MutationError::OperationInProgress)
        } else {
            Ok(MutationDisposition::Accepted)
        },
        ServerPhase::Reconciling => if intent.reconciliation_mode == ReconciliationMode::Initial
            && !intent.launch_demand {
            Ok(MutationDisposition::Accepted)
        } else {
            Err(MutationError::OperationInProgress)
        },
    }
}

/// How a stop is met.
pub open spec fn stop_rule(current: LifecycleState, intent: Intent) -> Result<
    MutationDisposition,
    MutationError,
> {
    match current.phase {
        ServerPhase::External => Err(MutationError::ExternalBackendNotOwned),
        ServerPhase::Conflict => Err(MutationError::ConflictingBackendEvidence),
        ServerPhase::Starting | ServerPhase::Running => Ok(MutationDisposition::Accepted),
        ServerPhase::Stopped | ServerPhase::Cooldown => Ok(MutationDisposition::AlreadySatisfied),
        ServerPhase::Reconciling => if intent.reconciliation_mode == ReconciliationMode::Initial {
            Err(MutationError::OperationRejected)
        } else {
            Err(MutationError::OperationInProgress)
        },
        ServerPhase::Stopping => match intent.stopping_reason {
            Some(StoppingReason::AutomaticIdle) | Some(StoppingReason::ExplicitRestart) => Ok(
                MutationDisposition::Accepted,
            ),
            Some(StoppingReason::FailureCleanup) => if intent.launch_demand {
                Ok(MutationDisposition::Accepted)
            } else {
                Ok(MutationDisposition::AlreadySatisfied)
            },
            Some(StoppingReason::ExplicitStop) => Err(MutationError::OperationInProgress),
            _ => Err(MutationError::OperationRejected),
        },
    }
}

/// How a restart is met.
pub open spec fn restart_rule(current: LifecycleState, intent: Intent) -> Result<
    MutationDisposition,
    MutationError,
> {
    match current.phase {
        ServerPhase::External => Err(MutationError::ExternalBackendNotOwned),
        ServerPhase::Conflict => Err(MutationError::ConflictingBackendEvidence),
        ServerPhase::Starting | ServerPhase::Running => Ok(MutationDisposition::Accepted),
        ServerPhase::Stopped | ServerPhase::Cooldown => Err(MutationError::OperationRejected),
        ServerPhase::Reconciling => if intent.reconciliation_mode == ReconciliationMode::Initial {
            Err(MutationError::OperationRejected)
        } else {
            Err(MutationError::OperationInProgress)
        },
        ServerPhase::Stopping => if intent.stopping_reason == Some(StoppingReason::AutomaticIdle)
            && !intent.launch_demand {
            Ok(MutationDisposition::Accepted)
        } else if intent.stopping_reason == Some(StoppingReason::AutomaticIdle) || explicit_stop(
            intent.stopping_reason,
        ) {
            Err(MutationError::OperationInProgress)
        } else {
            Err(MutationError::OperationRejected)
        },
    }
}

/// How a request is met.
pub open spec fn mutation_rule(
    operation: MutationOperation,
    current: LifecycleState,
    intent: Intent,
) -> Result<MutationDisposition, MutationError> {
    match operation {
        MutationOperation::Start => start_rule(current, intent),
        MutationOperation::Stop => stop_rule(current, intent),
        MutationOperation::Restart => restart_rule(current, intent),
    }
}

/// The lifecycle after an admitted request: the next revision, and the stop of an owned
/// process if the request calls for one.
pub open spec fn admitted_lifecycle(
    operation: MutationOperation,
    current: LifecycleState,
    next_revision: u64,
    now: Nanos,
) -> LifecycleState {
    let next = LifecycleState { command_revision: next_revision, ..current };
    if operation != MutationOperation::Start && owned_process(current.phase) {
        next.moved_to(ServerPhase::Stopping, now)
    } else {
        next
    }
}

/// The reason for stopping after an admitted request.
pub open spec fn admitted_reason(
    operation: MutationOperation,
    current: LifecycleState,
    intent: Intent,
) -> Option<StoppingReason> {
    match operation {
        MutationOperation::Start => intent.stopping_reason,
        MutationOperation::Stop => if owned_process(current.phase) || (current.phase
            == ServerPhase::Stopping && intent.stopping_reason != Some(
            StoppingReason::FailureCleanup,
        )) {
            Some(StoppingReason::ExplicitStop)
        } else {
            intent.stopping_reason
        },
        MutationOperation::Restart => Some(StoppingReason::ExplicitRestart),
    }
}

/// What admitting a request changes, or why it is refused.
pub open spec fn planned(
    operation: MutationOperation,
    current: LifecycleState,
    intent: Intent,
    next_revision: u64,
    now: Nanos,
) -> Result<AdmissionPlan, MutationError> {
    match mutation_rule(operation, current, intent) {
        Err(error) => Err(error),
        Ok(disposition) => Ok(
            AdmissionPlan {
                next: admitted_lifecycle(operation, current, next_revision, now),
                disposition,
                effect: if operation != MutationOperation::Start && owned_process(current.phase) {
                    MutationEffect::StopOwned
                } else {
                    MutationEffect::Nothing
                },
                launch_demand: match operation {
                    MutationOperation::Start => intent.launch_demand || disposition
                        == MutationDisposition::Accepted,
                    MutationOperation::Stop => false,
                    MutationOperation::Restart => true,
                },
                stopping_reason: admitted_reason(operation, current, intent),
            },
        ),
    }
}

impl Intent {
    /// Plans a start.
    pub fn plan_start(&self, current: LifecycleState, next: LifecycleState) -> (plan: Result<
        AdmissionPlan,
        MutationError,
    >)
        requires
            next == (LifecycleState { command_revision: next.command_revision, ..current }),
        ensures
            forall|now: Nanos|
                plan == #[trigger] planned(
                    MutationOperation::Start,
                    current,
                    *self,
                    next.command_revision,
                    now,
                ),
    {
        let mut launch_demand = self.launch_demand;
        let disposition = match current.phase {
            ServerPhase::Reconciling => {
                if self.reconciliation_mode != ReconciliationMode::Initial || launch_demand {
                    return Err(MutationError::OperationInProgress);
                }
                launch_demand = true;
                MutationDisposition::Accepted
            },
            ServerPhase::Starting => {
                return Err(MutationError::OperationInProgress);
            },
            ServerPhase::Stopped => {
                launch_demand = true;
                MutationDisposition::Accepted
            },
            ServerPhase::Running => MutationDisposition::AlreadySatisfied,
            ServerPhase::Stopping => match self.stopping_reason {
                Some(StoppingReason::AutomaticIdle | StoppingReason::FailureCleanup) => {
                    if launch_demand {
                        return Err(MutationError::OperationInProgress);
                    }
                    launch_demand = true;
                    MutationDisposition::Accepted
                },
                Some(StoppingReason::ExplicitStop | StoppingReason::ExplicitRestart) => {
                    return Err(MutationError::OperationInProgress);
                },
                Some(StoppingReason::DaemonShutdown) | None => {
                    return Err(MutationError::OperationRejected);
                },
            },
            ServerPhase::Cooldown => {
                if launch_demand {
                    return Err(MutationError::OperationInProgress);
                }
                launch_demand = true;
                MutationDisposition::Accepted
            },
            ServerPhase::External => {
                return Err(MutationError::ExternalBackendNotOwned);
            },
            ServerPhase::Conflict => {
                if current.reconciliation_evidence != ReconciliationEvidence::Inconclusive {
                    return Err(MutationError::ConflictingBackendEvidence);
                }
                launch_demand = true;
                MutationDisposition::Accepted
            },
        };
        Ok(
            AdmissionPlan {
                next,
                disposition,
                effect: MutationEffect::Nothing,
                launch_demand,
                stopping_reason: self.stopping_reason,
            },
        )
    }

    /// Plans a stop.
    pub fn plan_stop(&self, current: LifecycleState, next: LifecycleState, now: Nanos) -> (plan:
        Result<AdmissionPlan, MutationError>)
        requires
            next == (LifecycleState { command_revision: next.command_revision, ..current }),
        ensures
            plan == planned(
                MutationOperation::Stop,
                current,
                *self,
                next.command_revision,
                now,
            ),
    {
        let mut next = next;
        let mut stopping_reason = self.stopping_reason;
        let mut effect = MutationEffect::Nothing;
        let disposition = match current.phase {
            ServerPhase::Reconciling => {
                if self.reconciliation_mode == ReconciliationMode::Initial {
                    return Err(MutationError::OperationRejected);
                }
                return Err(MutationError::OperationInProgress);
            },
            ServerPhase::Starting | ServerPhase::Running => {
                next.phase = ServerPhase::Stopping;
                next.phase_started_at = now;
                next.retry_at = None;
                next.reconciliation_evidence = ReconciliationEvidence::Absent;
                stopping_reason = Some(StoppingReason::ExplicitStop);
                effect = MutationEffect::StopOwned;
                MutationDisposition::Accepted
            },
            ServerPhase::Stopped | ServerPhase::Cooldown => MutationDisposition::AlreadySatisfied,
            ServerPhase::Stopping => match stopping_reason {
                Some(StoppingReason::AutomaticIdle | StoppingReason::ExplicitRestart) => {
                    stopping_reason = Some(StoppingReason::ExplicitStop);
                    MutationDisposition::Accepted
                },
                Some(StoppingReason::FailureCleanup) => {
                    if self.launch_demand {
                        MutationDisposition::Accepted
                    } else {
                        MutationDisposition::AlreadySatisfied
                    }
                },
                Some(StoppingReason::ExplicitStop) => {
                    return Err(MutationError::OperationInProgress);
                },
                Some(StoppingReason::DaemonShutdown) | None => {
                    return Err(MutationError::OperationRejected);
                },
            },
            ServerPhase::External => {
                return Err(MutationError::ExternalBackendNotOwned);
            },
            ServerPhase::Conflict => {
                return Err(MutationError::ConflictingBackendEvidence);
            },
        };
        Ok(AdmissionPlan { next, disposition, effect, launch_demand: false, stopping_reason })
    }

    /// Plans a restart.
    pub fn plan_restart(
        &self,
        current: LifecycleState,
        next: LifecycleState,
        now: Nanos,
    ) -> (plan: Result<AdmissionPlan, MutationError>)
        requires
            next == (LifecycleState { command_revision: next.command_revision, ..current }),
        ensures
            plan == planned(
                MutationOperation::Restart,
                current,
                *self,
                next.command_revision,
                now,
            ),
    {
        let mut next = next;
        let mut effect = MutationEffect::Nothing;
        match current.phase {
            ServerPhase::Reconciling => {
                if self.reconciliation_mode == ReconciliationMode::Initial {
                    return Err(MutationError::OperationRejected);
                }
                return Err(MutationError::OperationInProgress);
            },
            ServerPhase::Stopped | ServerPhase::Cooldown => {
                return Err(MutationError::OperationRejected);
            },
            ServerPhase::Starting | ServerPhase::Running => {
                next.phase = ServerPhase::Stopping;
                next.phase_started_at = now;
                next.retry_at = None;
                next.reconciliation_evidence = ReconciliationEvidence::Absent;
                effect = MutationEffect::StopOwned;
            },
            ServerPhase::Stopping => match self.stopping_reason {
                Some(StoppingReason::AutomaticIdle) => {
                    if self.launch_demand {
                        return Err(MutationError::OperationInProgress);
                    }
                },
                Some(StoppingReason::ExplicitStop | StoppingReason::ExplicitRestart) => {
                    return Err(MutationError::OperationInProgress);
                },
                Some(StoppingReason::FailureCleanup | StoppingReason::DaemonShutdown) | None => {
                    return Err(MutationError::OperationRejected);
                },
            },
            ServerPhase::External => {
                return Err(MutationError::ExternalBackendNotOwned);
            },
            ServerPhase::Conflict => {
                return Err(MutationError::ConflictingBackendEvidence);
            },
        }
        Ok(
            AdmissionPlan {
                next,
                disposition: MutationDisposition::Accepted,
                effect,
                launch_demand: true,
                stopping_reason: Some(StoppingReason::ExplicitRestart),
            },
        )
    }

    /// Plans a request that would get the revision `next_revision`.
    pub fn plan_mutation(
        &self,
        operation: MutationOperation,
        current: LifecycleState,
        next_revision: u64,
        now: Nanos,
    ) -> (plan: Result<AdmissionPlan, MutationError>)
        ensures
            plan == planned(operation, current, *self, next_revision, now),
    {
        let next = LifecycleState {
            phase: current.phase,
            command_revision: next_revision,
            launch_generation: current.launch_generation,
            failure: current.failure,
            failure_streak: current.failure_streak,
            phase_started_at: current.phase_started_at,
            retry_at: current.retry_at,
            reconciliation_evidence: current.reconciliation_evidence,
        };
        match operation {
            MutationOperation::Start => self.plan_start(current, next),
            MutationOperation::Stop => self.plan_stop(current, next, now),
            MutationOperation::Restart => self.plan_restart(current, next, now),
        }
    }
}

/// An admitted request keeps the lifecycle valid, raises the command revision and nothing
/// else that counts, and stops an owned process only when it says so.
pub proof fn admission_keeps_the_lifecycle(
    operation: MutationOperation,
    current: LifecycleState,
    intent: Intent,
    next_revision: u64,
    now: Nanos,
)
    requires
        current.valid(),
        next_revision == current.command_revision + 1,
        planned(operation, current, intent, next_revision, now) is Ok,
    ensures
        ({
            let plan = planned(operation, current, intent, next_revision, now)->Ok_0;
            &&& plan.next.valid()
            &&& plan.next.may_follow(current)
            &&& plan.next.command_revision == current.command_revision + 1
            &&& plan.next.launch_generation == current.launch_generation
            &&& plan.next.failure == current.failure
            &&& plan.next.failure_streak == current.failure_streak
            &&& plan.effect == MutationEffect::StopOwned <==> owned_process(current.phase)
                && plan.next.phase == ServerPhase::Stopping
            &&& plan.effect == MutationEffect::Nothing ==> plan.next.phase == current.phase
        }),
{
}

/// No request is admitted against a backend that somebody else owns, and none asks for a
/// launch against positive evidence of one.
pub proof fn foreign_backends_are_left_alone(
    operation: MutationOperation,
    current: LifecycleState,
    intent: Intent,
    next_revision: u64,
    now: Nanos,
)
    requires
        current.valid(),
        current.phase == ServerPhase::External || current.phase == ServerPhase::Conflict,
    ensures
        planned(operation, current, intent, next_revision, now) is Ok <==> operation
            == MutationOperation::Start && current.phase == ServerPhase::Conflict
            && current.reconciliation_evidence == ReconciliationEvidence::Inconclusive,
{
}

/// An admitted stop leaves no demand for a launch, an accepted start or restart leaves one.
pub proof fn admission_settles_the_demand(
    operation: MutationOperation,
    current: LifecycleState,
    intent: Intent,
    next_revision: u64,
    now: Nanos,
)
    requires
        planned(operation, current, intent, next_revision, now) is Ok,
    ensures
        ({
            let plan = planned(operation, current, intent, next_revision, now)->Ok_0;
            &&& operation == MutationOperation::Stop ==> !plan.launch_demand
            &&& operation != MutationOperation::Stop && plan.disposition
                == MutationDisposition::Accepted ==> plan.launch_demand
        }),
{
}

/// A stop calls off a restart while the old process is being stopped; while the reconciliation
/// before the relaunch is under way it is refused, and changes nothing.
pub proof fn stops_call_off_restarts_during_cleanup(
    current: LifecycleState,
    intent: Intent,
    next_revision: u64,
    now: Nanos,
)
    ensures
        ({
            let plan = planned(MutationOperation::Stop, current, intent, next_revision, now);
            &&& current.phase == ServerPhase::Stopping && intent.stopping_reason == Some(
                StoppingReason::ExplicitRestart,
            ) ==> {
                &&& plan is Ok
                &&& !plan->Ok_0.launch_demand
                &&& plan->Ok_0.stopping_reason == Some(StoppingReason::ExplicitStop)
            }
            &&& current.phase == ServerPhase::Reconciling && intent.reconciliation_mode
                == ReconciliationMode::FinalGate ==> plan == Err::<AdmissionPlan, MutationError>(
                MutationError::OperationInProgress,
            )
        }),
{
}

/// Once the daemon shuts down, no request changes the stop of an owned server.
pub proof fn shutdown_refuses_every_request(
    operation: MutationOperation,
    current: LifecycleState,
    intent: Intent,
    next_revision: u64,
    now: Nanos,
)
    requires
        current.phase == ServerPhase::Stopping,
        intent.stopping_reason == Some(StoppingReason::DaemonShutdown)
            || intent.stopping_reason is None,
    ensures
        planned(operation, current, intent, next_revision, now) == Err::<
            AdmissionPlan,
            MutationError,
        >(MutationError::OperationRejected),
{
}

/// A start leads to a launch wherever the server is down or going down by itself and no launch is
/// under way: of a stopped server, in a cooldown, after an idle stop or a failed start, during
/// the first look at the backend, and after a look that showed nothing. A running server stays as
/// it is. Anything else is refused with the reason.
pub proof fn starts_launch_what_is_down(
    current: LifecycleState,
    intent: Intent,
    next_revision: u64,
    now: Nanos,
)
    ensures
        ({
            let plan = planned(MutationOperation::Start, current, intent, next_revision, now);
            let in_progress = Err::<AdmissionPlan, MutationError>(
                MutationError::OperationInProgress,
            );
            let untouched = LifecycleState { command_revision: next_revision, ..current };
            &&& plan matches Ok(admitted) ==> admitted.next == untouched && admitted.effect
                == MutationEffect::Nothing && admitted.stopping_reason == intent.stopping_reason
            &&& plan matches Ok(admitted) ==> if current.phase == ServerPhase::Running {
                admitted.disposition == MutationDisposition::AlreadySatisfied
                    && admitted.launch_demand == intent.launch_demand
            } else {
                admitted.disposition == MutationDisposition::Accepted && admitted.launch_demand
            }
            &&& current.phase == ServerPhase::Running || current.phase == ServerPhase::Stopped
                ==> plan is Ok
            &&& current.phase == ServerPhase::Starting ==> plan == in_progress
            &&& current.phase == ServerPhase::Cooldown ==> if intent.launch_demand {
                plan == in_progress
            } else {
                plan is Ok
            }
            &&& current.phase == ServerPhase::Reconciling ==> if intent.launch_demand
                || intent.reconciliation_mode == ReconciliationMode::FinalGate {
                plan == in_progress
            } else {
                plan is Ok
            }
            &&& current.phase == ServerPhase::Stopping ==> match intent.stopping_reason {
                Some(StoppingReason::AutomaticIdle) | Some(StoppingReason::FailureCleanup) => {
                    if intent.launch_demand {
                        plan == in_progress
                    } else {
                        plan is Ok
                    }
                },
                Some(StoppingReason::ExplicitStop) | Some(StoppingReason::ExplicitRestart) => {
                    plan == in_progress
                },
                _ => plan == Err::<AdmissionPlan, MutationError>(MutationError::OperationRejected),
            }
            &&& current.phase == ServerPhase::External ==> plan == Err::<
                AdmissionPlan,
                MutationError,
            >(MutationError::ExternalBackendNotOwned)
            &&& current.phase == ServerPhase::Conflict ==> if current.reconciliation_evidence
                == ReconciliationEvidence::Inconclusive {
                plan is Ok
            } else {
                plan == Err::<AdmissionPlan, MutationError>(
                    MutationError::ConflictingBackendEvidence,
                )
            }
        }),
{
}

/// A stop ends an owned process that runs or starts, turns an idle stop or a restart into a stop
/// for good, and finds nothing to do where the server is down. It never leaves a demand for a
/// launch. Anything else is refused with the reason.
pub proof fn stops_end_what_is_owned(
    current: LifecycleState,
    intent: Intent,
    next_revision: u64,
    now: Nanos,
)
    ensures
        ({
            let plan = planned(MutationOperation::Stop, current, intent, next_revision, now);
            let rejected = Err::<AdmissionPlan, MutationError>(MutationError::OperationRejected);
            let in_progress = Err::<AdmissionPlan, MutationError>(
                MutationError::OperationInProgress,
            );
            let untouched = LifecycleState { command_revision: next_revision, ..current };
            &&& plan matches Ok(admitted) ==> !admitted.launch_demand
            &&& current.phase == ServerPhase::Running || current.phase == ServerPhase::Starting
                ==> {
                &&& plan matches Ok(admitted)
                &&& admitted.disposition == MutationDisposition::Accepted
                &&& admitted.effect == MutationEffect::StopOwned
                &&& admitted.stopping_reason == Some(StoppingReason::ExplicitStop)
                &&& admitted.next.phase == ServerPhase::Stopping
                &&& admitted.next.phase_started_at == now
            }
            &&& current.phase == ServerPhase::Stopped || current.phase == ServerPhase::Cooldown
                ==> {
                &&& plan matches Ok(admitted)
                &&& admitted.disposition == MutationDisposition::AlreadySatisfied
                &&& admitted.effect == MutationEffect::Nothing
                &&& admitted.stopping_reason == intent.stopping_reason
                &&& admitted.next == untouched
            }
            &&& current.phase == ServerPhase::Stopping ==> match intent.stopping_reason {
                Some(StoppingReason::AutomaticIdle) | Some(StoppingReason::ExplicitRestart) => {
                    &&& plan matches Ok(admitted)
                    &&& admitted.disposition == MutationDisposition::Accepted
                    &&& admitted.effect == MutationEffect::Nothing
                    &&& admitted.stopping_reason == Some(StoppingReason::ExplicitStop)
                    &&& admitted.next == untouched
                },
                Some(StoppingReason::FailureCleanup) => {
                    &&& plan matches Ok(admitted)
                    &&& admitted.disposition == (if intent.launch_demand {
                        MutationDisposition::Accepted
                    } else {
                        MutationDisposition::AlreadySatisfied
                    })
                    &&& admitted.effect == MutationEffect::Nothing
                    &&& admitted.stopping_reason == intent.stopping_reason
                    &&& admitted.next == untouched
                },
                Some(StoppingReason::ExplicitStop) => plan == in_progress,
                _ => plan == rejected,
            }
            &&& current.phase == ServerPhase::Reconciling ==> plan == (
            if intent.reconciliation_mode == ReconciliationMode::Initial {
                rejected
            } else {
                in_progress
            })
            &&& current.phase == ServerPhase::External ==> plan == Err::<
                AdmissionPlan,
                MutationError,
            >(MutationError::ExternalBackendNotOwned)
            &&& current.phase == ServerPhase::Conflict ==> plan == Err::<
                AdmissionPlan,
                MutationError,
            >(MutationError::ConflictingBackendEvidence)
        }),
{
}

/// A restart ends an owned process that runs or starts and leaves a demand for the next one, also
/// while an idle server is being stopped. A server that is down is not restarted.
pub proof fn restarts_end_and_launch_what_is_owned(
    current: LifecycleState,
    intent: Intent,
    next_revision: u64,
    now: Nanos,
)
    ensures
        ({
            let plan = planned(MutationOperation::Restart, current, intent, next_revision, now);
            let rejected = Err::<AdmissionPlan, MutationError>(MutationError::OperationRejected);
            let in_progress = Err::<AdmissionPlan, MutationError>(
                MutationError::OperationInProgress,
            );
            &&& plan matches Ok(admitted) ==> {
                &&& admitted.launch_demand
                &&& admitted.disposition == MutationDisposition::Accepted
                &&& admitted.stopping_reason == Some(StoppingReason::ExplicitRestart)
                &&& admitted.next.phase == ServerPhase::Stopping
                &&& admitted.effect == (if current.phase == ServerPhase::Stopping {
                    MutationEffect::Nothing
                } else {
                    MutationEffect::StopOwned
                })
            }
            &&& current.phase == ServerPhase::Running || current.phase == ServerPhase::Starting
                ==> plan is Ok
            &&& current.phase == ServerPhase::Stopped || current.phase == ServerPhase::Cooldown
                ==> plan == rejected
            &&& current.phase == ServerPhase::Stopping ==> match intent.stopping_reason {
                Some(StoppingReason::AutomaticIdle) => if intent.launch_demand {
                    plan == in_progress
                } else {
                    plan is Ok
                },
                Some(StoppingReason::ExplicitStop) | Some(StoppingReason::ExplicitRestart) => {
                    plan == in_progress
                },
                _ => plan == rejected,
            }
            &&& current.phase == ServerPhase::Reconciling ==> plan == (
            if intent.reconciliation_mode == ReconciliationMode::Initial {
                rejected
            } else {
                in_progress
            })
            &&& current.phase == ServerPhase::External ==> plan == Err::<
                AdmissionPlan,
                MutationError,
            >(MutationError::ExternalBackendNotOwned)
            &&& current.phase == ServerPhase::Conflict ==> plan == Err::<
                AdmissionPlan,
                MutationError,
            >(MutationError::ConflictingBackendEvidence)
        }),
{
}

/// An answer is seen as it is, with the names of its change and of how it was met.
pub proof fn answers_are_seen_as_they_are(success: MutationSuccess)
    ensures
        success@.server_id == success.server_id@,
        success@.operation == success.operation,
        success@.request_id == success.request_id@,
        success@.command_revision == success.command_revision,
        success@.disposition == success.disposition,
        success.operation.name() == (match success.operation {
            MutationOperation::Start => "start"@,
            MutationOperation::Stop => "stop"@,
            MutationOperation::Restart => "restart"@,
        }),
        success.disposition.name() == (match success.disposition {
            MutationDisposition::Accepted => "accepted"@,
            MutationDisposition::AlreadySatisfied => "already_satisfied"@,
        }),
{
}

/// At most 32 requests wait for the supervisor.
pub proof fn few_requests_wait(waiting: usize)
    ensures
        waiting <= MUTATION_QUEUE_CAPACITY <==> waiting <= 32,
{
    assert(MUTATION_QUEUE_CAPACITY == 32);
}

} // verus!
