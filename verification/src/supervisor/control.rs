//! The supervisor's own state: the lifecycle it publishes, what it was asked for, and every
//! transition between phases.

use vstd::prelude::*;

use crate::backend_use::BackendCycle;

use super::admission::{
    planned, AdmissionGate, AdmissionPlan, Intent, MutationEffect, MutationEnvelope, MutationError,
    MutationReply, MutationSuccess, ReconciliationMode, StoppingReason, SuccessView,
};
use super::lifecycle::{
    backoff, failure_backoff, next_streak, FailureCategory, LifecycleState, Nanos,
    ReconciliationEvidence, ServerPhase, LONGEST_BACKOFF,
};

verus! {

/// The state of a supervisor between two events.
pub struct SupervisorControl {
    pub server_id: String,
    pub lifecycle: LifecycleState,
    /// The last admitted request. Only this one is replayed; older ones have become stale.
    pub last_admission: Option<MutationSuccess>,
    pub launch_demand: bool,
    pub stopping_reason: Option<StoppingReason>,
    pub reconciliation_mode: ReconciliationMode,
    pub mutations_closed: bool,
    pub fatal_error: Option<String>,
    /// The daemon has been told that this supervisor failed.
    pub fatal_raised: bool,
}

/// What the supervisor makes of a request.
#[derive(Clone, Copy, Debug, PartialEq, Eq, Structural)]
pub enum MutationVerdict {
    /// Nobody waits for an answer.
    Silent,
    /// The last admitted request came again.
    Replay,
    /// The request is refused.
    Refuse(MutationError),
    /// There is no further revision.
    Exhausted,
    /// The request is admitted.
    Admitted(AdmissionPlan),
}

/// What came of a request: what to do at once, and the answer if one is due.
pub struct HandledMutation {
    pub effect: MutationEffect,
    pub reply: Option<MutationReply>,
}

/// The text of the failure that ends a supervisor whose command revisions are used up.
pub open spec fn revision_exhausted() -> Seq<char> {
    "lifecycle command revision exhausted"@
}

/// The text of the failure that ends a supervisor whose launch generations are used up.
pub open spec fn generation_exhausted() -> Seq<char> {
    "lifecycle launch generation exhausted"@
}

impl SupervisorControl {
    /// The published lifecycle is valid.
    pub open spec fn valid(self) -> bool {
        self.lifecycle.valid()
    }

    /// What the supervisor remembers of the operator's wishes, in mathematical form.
    pub open spec fn intent_view(self) -> Intent {
        Intent {
            launch_demand: self.launch_demand,
            stopping_reason: self.stopping_reason,
            reconciliation_mode: self.reconciliation_mode,
        }
    }

    /// The failure that is known after one more is raised: the first one stays.
    pub open spec fn fatal_text(self, message: Seq<char>) -> Seq<char> {
        match self.fatal_error {
            Some(first) => first@,
            None => message,
        }
    }

    /// That `later` is `self` with a failure raised and nothing else changed.
    pub open spec fn raised(self, later: SupervisorControl, message: Seq<char>) -> bool {
        &&& later == (SupervisorControl {
            fatal_error: later.fatal_error,
            fatal_raised: true,
            ..self
        })
        &&& later.fatal_error matches Some(text) && text@ == self.fatal_text(message)
    }

    /// That the last admitted request has this identifier.
    pub open spec fn replays(self, request_id: Seq<char>) -> bool {
        self.last_admission matches Some(last) && last@.request_id == request_id
    }

    /// What the supervisor makes of a request.
    pub open spec fn verdict(
        self,
        envelope: MutationEnvelope,
        gate: AdmissionGate,
        now: Nanos,
    ) -> MutationVerdict {
        if gate == AdmissionGate::Cancelled {
            MutationVerdict::Silent
        } else if self.replays(envelope.request_id@) {
            let last = self.last_admission->0@;
            if last.operation == envelope.operation && last.command_revision
                == envelope.expected_command_revision + 1 {
                MutationVerdict::Replay
            } else {
                MutationVerdict::Refuse(MutationError::RequestIdConflict)
            }
        } else if envelope.expected_command_revision != self.lifecycle.command_revision {
            MutationVerdict::Refuse(MutationError::StaleCommandRevision)
        } else if self.lifecycle.command_revision == u64::MAX {
            MutationVerdict::Exhausted
        } else {
            match planned(
                envelope.operation,
                self.lifecycle,
                self.intent_view(),
                (self.lifecycle.command_revision + 1) as u64,
                now,
            ) {
                Err(error) => MutationVerdict::Refuse(error),
                Ok(plan) => if gate == AdmissionGate::Pending {
                    MutationVerdict::Admitted(plan)
                } else {
                    MutationVerdict::Silent
                },
            }
        }
    }

    /// The answer to a request that is admitted under `plan`.
    pub open spec fn success(self, envelope: MutationEnvelope, plan: AdmissionPlan) -> SuccessView {
        SuccessView {
            server_id: self.server_id@,
            operation: envelope.operation,
            request_id: envelope.request_id@,
            command_revision: plan.next.command_revision,
            disposition: plan.disposition,
        }
    }

    /// That `later` is `self` after the request was admitted under `plan`.
    pub open spec fn after_admission(
        self,
        later: SupervisorControl,
        envelope: MutationEnvelope,
        plan: AdmissionPlan,
    ) -> bool {
        &&& later == (SupervisorControl {
            lifecycle: plan.next,
            launch_demand: plan.launch_demand,
            stopping_reason: plan.stopping_reason,
            last_admission: later.last_admission,
            ..self
        })
        &&& later.last_admission matches Some(last) && last@ == self.success(envelope, plan)
    }

    /// That `later` and `handled` are what comes of a request under its verdict.
    pub open spec fn handled(
        self,
        later: SupervisorControl,
        envelope: MutationEnvelope,
        verdict: MutationVerdict,
        handled: HandledMutation,
    ) -> bool {
        match verdict {
            MutationVerdict::Silent => {
                &&& later == self
                &&& handled.effect == MutationEffect::Nothing
                &&& handled.reply is None
            },
            MutationVerdict::Replay => {
                &&& later == self
                &&& handled.effect == MutationEffect::Nothing
                &&& handled.reply matches Some(Ok(success)) && success@ == self.last_admission->0@
            },
            MutationVerdict::Refuse(error) => {
                &&& later == self
                &&& handled.effect == MutationEffect::Nothing
                &&& handled.reply == Some(Err::<MutationSuccess, MutationError>(error))
            },
            MutationVerdict::Exhausted => {
                &&& self.raised(later, revision_exhausted())
                &&& handled.effect == MutationEffect::Nothing
                &&& handled.reply == Some(
                    Err::<MutationSuccess, MutationError>(MutationError::InternalFailure),
                )
            },
            MutationVerdict::Admitted(plan) => {
                &&& self.after_admission(later, envelope, plan)
                &&& handled.effect == plan.effect
                &&& handled.reply matches Some(Ok(success)) && success@ == self.success(
                    envelope,
                    plan,
                )
            },
        }
    }

    /// A supervisor that has just started: it knows nothing of the backend yet.
    pub fn new(server_id: String, now: Nanos) -> (control: SupervisorControl)
        ensures
            control.valid(),
            control.server_id == server_id,
            control.lifecycle == (LifecycleState {
                phase: ServerPhase::Reconciling,
                command_revision: 0,
                launch_generation: 0,
                failure: None,
                failure_streak: 0,
                phase_started_at: now,
                retry_at: None,
                reconciliation_evidence: ReconciliationEvidence::Absent,
            }),
            control.last_admission is None,
            control.intent_view() == (Intent {
                launch_demand: false,
                stopping_reason: None,
                reconciliation_mode: ReconciliationMode::Initial,
            }),
            !control.mutations_closed,
            control.fatal_error is None,
            !control.fatal_raised,
    {
        SupervisorControl {
            server_id,
            lifecycle: LifecycleState::reconciling(now),
            last_admission: None,
            launch_demand: false,
            stopping_reason: None,
            reconciliation_mode: ReconciliationMode::Initial,
            mutations_closed: false,
            fatal_error: None,
            fatal_raised: false,
        }
    }

    /// Remembers the first failure and tells the daemon.
    pub fn raise_fatal(&mut self, message: &str)
        ensures
            old(self).raised(*final(self), message@),
    {
        if self.fatal_error.is_none() {
            self.fatal_error = Some(message.to_owned());
        }
        self.fatal_raised = true;
    }

    /// The result of the supervisor: the failure that it remembered, if any.
    pub fn terminal_result(&mut self) -> (result: Result<(), String>)
        ensures
            *final(self) == (SupervisorControl { fatal_error: None, ..*old(self) }),
            result == (match old(self).fatal_error {
                Some(text) => Err::<(), String>(text),
                None => Ok::<(), String>(()),
            }),
    {
        match self.fatal_error.take() {
            Some(error) => Err(error),
            None => Ok(()),
        }
    }

    /// The generation of the next launch, or a failure when there is none.
    pub fn next_launch_generation(&mut self) -> (generation: Option<u64>)
        ensures
            old(self).lifecycle.launch_generation < u64::MAX ==> *final(self) == *old(self)
                && generation == Some((old(self).lifecycle.launch_generation + 1) as u64),
            old(self).lifecycle.launch_generation == u64::MAX ==> generation is None && old(
                self,
            ).raised(*final(self), generation_exhausted()),
    {
        if let Some(next) = self.lifecycle.launch_generation.checked_add(1) {
            Some(next)
        } else {
            self.raise_fatal("lifecycle launch generation exhausted");
            None
        }
    }

    /// What the supervisor makes of a request, without acting on it.
    pub fn review_mutation(
        &self,
        envelope: &MutationEnvelope,
        gate: &AdmissionGate,
        now: Nanos,
    ) -> (verdict: MutationVerdict)
        ensures
            verdict == self.verdict(*envelope, *gate, now),
    {
        if gate.is_cancelled() {
            return MutationVerdict::Silent;
        }
        if let Some(last) = &self.last_admission {
            if last.request_id == envelope.request_id {
                let original_expected: Option<u64> = last.command_revision.checked_sub(1);
                return if last.operation == envelope.operation && original_expected == Some(
                    envelope.expected_command_revision,
                ) {
                    MutationVerdict::Replay
                } else {
                    MutationVerdict::Refuse(MutationError::RequestIdConflict)
                };
            }
        }
        if envelope.expected_command_revision != self.lifecycle.command_revision {
            return MutationVerdict::Refuse(MutationError::StaleCommandRevision);
        }
        if self.lifecycle.command_revision == u64::MAX {
            return MutationVerdict::Exhausted;
        }
        let next_revision: u64 = self.lifecycle.command_revision + 1;
        let intent = Intent {
            launch_demand: self.launch_demand,
            stopping_reason: self.stopping_reason,
            reconciliation_mode: self.reconciliation_mode,
        };
        match intent.plan_mutation(envelope.operation, self.lifecycle, next_revision, now) {
            Err(error) => MutationVerdict::Refuse(error),
            Ok(plan) => if *gate == AdmissionGate::Pending {
                MutationVerdict::Admitted(plan)
            } else {
                MutationVerdict::Silent
            },
        }
    }

    /// Decides about a request, acts on it and answers it. A request is admitted only through
    /// its gate, so that a client that gave up on it in time can rely on that.
    pub fn handle_mutation(
        &mut self,
        envelope: &MutationEnvelope,
        gate: &mut AdmissionGate,
        now: Nanos,
    ) -> (handled: HandledMutation)
        requires
            old(self).valid(),
        ensures
            final(self).valid(),
            final(self).lifecycle.may_follow(old(self).lifecycle),
            old(self).handled(
                *final(self),
                *envelope,
                old(self).verdict(*envelope, *old(gate), now),
                handled,
            ),
            *final(gate) == (if old(self).verdict(*envelope, *old(gate), now) is Admitted {
                AdmissionGate::Admitted
            } else {
                *old(gate)
            }),
    {
        match self.review_mutation(envelope, gate, now) {
            MutationVerdict::Silent => HandledMutation {
                effect: MutationEffect::Nothing,
                reply: None,
            },
            MutationVerdict::Replay => {
                let reply = match &self.last_admission {
                    Some(last) => Some(Ok(last.duplicate())),
                    None => None,
                };
                HandledMutation { effect: MutationEffect::Nothing, reply }
            },
            MutationVerdict::Refuse(error) => HandledMutation {
                effect: MutationEffect::Nothing,
                reply: Some(Err(error)),
            },
            MutationVerdict::Exhausted => {
                self.raise_fatal("lifecycle command revision exhausted");
                HandledMutation {
                    effect: MutationEffect::Nothing,
                    reply: Some(Err(MutationError::InternalFailure)),
                }
            },
            MutationVerdict::Admitted(plan) => {
                let _ = gate.accept();
                self.launch_demand = plan.launch_demand;
                self.stopping_reason = plan.stopping_reason;
                self.lifecycle = plan.next;
                let success = MutationSuccess {
                    server_id: self.server_id.clone(),
                    operation: envelope.operation,
                    request_id: envelope.request_id.clone(),
                    command_revision: plan.next.command_revision,
                    disposition: plan.disposition,
                };
                let reply = success.duplicate();
                self.last_admission = Some(success);
                HandledMutation { effect: plan.effect, reply: Some(Ok(reply)) }
            },
        }
    }

    /// Notes that no further request can arrive.
    pub fn close_mutations(&mut self)
        ensures
            *final(self) == (SupervisorControl { mutations_closed: true, ..*old(self) }),
    {
        self.mutations_closed = true;
    }

    /// That a shutdown is due: the supervisor failed, its wake latch is closed, or the daemon
    /// signalled it.
    pub open spec fn shutdown_due(self, latch_closed: bool, signalled: bool) -> bool {
        self.fatal_error is Some || latch_closed || signalled
    }

    /// Whether a shutdown is due.
    pub fn shutdown_pending(&self, latch_closed: bool, signalled: bool) -> (due: bool)
        ensures
            due == self.shutdown_due(latch_closed, signalled),
    {
        self.fatal_error.is_some() || latch_closed || signalled
    }

    /// Publishes a lifecycle.
    pub fn publish(&mut self, next: LifecycleState)
        requires
            next.valid(),
            next.may_follow(old(self).lifecycle),
        ensures
            *final(self) == (SupervisorControl { lifecycle: next, ..*old(self) }),
            final(self).valid(),
    {
        self.lifecycle = next;
    }

    /// Records that the server process of the given generation was launched. Every login that
    /// saw an earlier lifecycle belongs to the same burst.
    pub fn record_launch_success(&mut self, next_generation: u64, now: Nanos)
        requires
            old(self).lifecycle.phase == ServerPhase::Reconciling,
            old(self).lifecycle.reconciliation_evidence != ReconciliationEvidence::Positive,
            next_generation >= old(self).lifecycle.launch_generation,
        ensures
            *final(self) == (SupervisorControl {
                lifecycle: (LifecycleState {
                    launch_generation: next_generation,
                    ..old(self).lifecycle
                }).moved_to(ServerPhase::Starting, now),
                ..*old(self)
            }),
            final(self).valid(),
            final(self).lifecycle.may_follow(old(self).lifecycle),
    {
        let current = self.lifecycle;
        self.publish(
            LifecycleState {
                phase: ServerPhase::Starting,
                command_revision: current.command_revision,
                launch_generation: next_generation,
                failure: current.failure,
                failure_streak: current.failure_streak,
                phase_started_at: now,
                retry_at: None,
                reconciliation_evidence: ReconciliationEvidence::Absent,
            },
        );
    }

    /// Records that the launch of the given generation failed, and says when the next attempt
    /// may be made.
    pub fn record_launch_failure(&mut self, next_generation: u64, now: Nanos) -> (retry_at: Nanos)
        requires
            old(self).lifecycle.phase == ServerPhase::Reconciling,
            old(self).lifecycle.reconciliation_evidence != ReconciliationEvidence::Positive,
            next_generation >= old(self).lifecycle.launch_generation,
            now + LONGEST_BACKOFF <= Nanos::MAX,
        ensures
            retry_at == now + backoff(next_streak(old(self).lifecycle.failure_streak)),
            *final(self) == (SupervisorControl {
                lifecycle: (LifecycleState {
                    launch_generation: next_generation,
                    ..old(self).lifecycle
                }).failed(FailureCategory::LaunchFailed).cooling_down(now, retry_at - now),
                ..*old(self)
            }),
            old(self).lifecycle.failure_streak < u32::MAX ==> final(self).lifecycle.failure_streak
                == old(self).lifecycle.failure_streak + 1,
            old(self).lifecycle.failure_streak == u32::MAX
                ==> final(self).lifecycle.failure_streak == u32::MAX,
            old(self).lifecycle.failure_streak == 0 ==> retry_at - now == 5_000_000_000,
            old(self).lifecycle.failure_streak == 1 ==> retry_at - now == 10_000_000_000,
            old(self).lifecycle.failure_streak == 2 ==> retry_at - now == 20_000_000_000,
            old(self).lifecycle.failure_streak == 3 ==> retry_at - now == 40_000_000_000,
            old(self).lifecycle.failure_streak >= 4 ==> retry_at - now == 60_000_000_000,
            final(self).lifecycle.phase == ServerPhase::Cooldown,
            final(self).lifecycle.phase_started_at == now,
            final(self).lifecycle.retry_at == Some(retry_at),
            final(self).lifecycle.command_revision == old(self).lifecycle.command_revision,
            final(self).lifecycle.failure == Some(FailureCategory::LaunchFailed),
            final(self).lifecycle.launch_generation == next_generation,
            final(self).valid(),
            final(self).lifecycle.may_follow(old(self).lifecycle),
    {
        let current = self.lifecycle;
        let failure_streak: u32 = current.failure_streak.saturating_add(1);
        let retry_at: Nanos = now + failure_backoff(failure_streak);
        self.publish(
            LifecycleState {
                phase: ServerPhase::Cooldown,
                command_revision: current.command_revision,
                launch_generation: next_generation,
                failure: Some(FailureCategory::LaunchFailed),
                failure_streak,
                phase_started_at: now,
                retry_at: Some(retry_at),
                reconciliation_evidence: ReconciliationEvidence::Absent,
            },
        );
        retry_at
    }

    /// Records that the owned process is gone although nobody stopped it, and says when the
    /// next attempt may be made.
    pub fn record_reaped_failure(&mut self, failure: FailureCategory, now: Nanos) -> (retry_at:
        Nanos)
        requires
            old(self).lifecycle.phase == ServerPhase::Starting || old(self).lifecycle.phase
                == ServerPhase::Running,
            now + LONGEST_BACKOFF <= Nanos::MAX,
        ensures
            retry_at == now + backoff(next_streak(old(self).lifecycle.failure_streak)),
            *final(self) == (SupervisorControl {
                lifecycle: old(self).lifecycle.failed(failure).cooling_down(now, retry_at - now),
                ..*old(self)
            }),
            old(self).lifecycle.failure_streak < u32::MAX ==> final(self).lifecycle.failure_streak
                == old(self).lifecycle.failure_streak + 1,
            old(self).lifecycle.failure_streak == u32::MAX
                ==> final(self).lifecycle.failure_streak == u32::MAX,
            old(self).lifecycle.failure_streak == 0 ==> retry_at - now == 5_000_000_000,
            old(self).lifecycle.failure_streak == 1 ==> retry_at - now == 10_000_000_000,
            old(self).lifecycle.failure_streak == 2 ==> retry_at - now == 20_000_000_000,
            old(self).lifecycle.failure_streak == 3 ==> retry_at - now == 40_000_000_000,
            old(self).lifecycle.failure_streak >= 4 ==> retry_at - now == 60_000_000_000,
            final(self).lifecycle.phase == ServerPhase::Cooldown,
            final(self).lifecycle.phase_started_at == now,
            final(self).lifecycle.retry_at == Some(retry_at),
            final(self).lifecycle.command_revision == old(self).lifecycle.command_revision,
            final(self).lifecycle.failure == Some(failure),
            final(self).lifecycle.launch_generation == old(self).lifecycle.launch_generation,
            final(self).valid(),
            final(self).lifecycle.may_follow(old(self).lifecycle),
    {
        let current = self.lifecycle;
        let failure_streak: u32 = current.failure_streak.saturating_add(1);
        let retry_at: Nanos = now + failure_backoff(failure_streak);
        self.publish(
            LifecycleState {
                phase: ServerPhase::Cooldown,
                command_revision: current.command_revision,
                launch_generation: current.launch_generation,
                failure: Some(failure),
                failure_streak,
                phase_started_at: now,
                retry_at: Some(retry_at),
                reconciliation_evidence: ReconciliationEvidence::Absent,
            },
        );
        retry_at
    }

    /// Begins to stop a server that did not start properly, and says how long it has to cool
    /// down once it is gone.
    pub fn begin_failure_cleanup(&mut self, failure: FailureCategory, now: Nanos) -> (delay: Nanos)
        requires
            old(self).lifecycle.phase == ServerPhase::Starting,
        ensures
            delay == backoff(next_streak(old(self).lifecycle.failure_streak)),
            delay <= LONGEST_BACKOFF,
            *final(self) == (SupervisorControl {
                lifecycle: old(self).lifecycle.failed(failure).moved_to(ServerPhase::Stopping, now),
                stopping_reason: Some(StoppingReason::FailureCleanup),
                ..*old(self)
            }),
            old(self).lifecycle.failure_streak < u32::MAX ==> final(self).lifecycle.failure_streak
                == old(self).lifecycle.failure_streak + 1,
            old(self).lifecycle.failure_streak == u32::MAX
                ==> final(self).lifecycle.failure_streak == u32::MAX,
            old(self).lifecycle.failure_streak == 0 ==> delay == 5_000_000_000,
            old(self).lifecycle.failure_streak == 1 ==> delay == 10_000_000_000,
            old(self).lifecycle.failure_streak == 2 ==> delay == 20_000_000_000,
            old(self).lifecycle.failure_streak == 3 ==> delay == 40_000_000_000,
            old(self).lifecycle.failure_streak >= 4 ==> delay == 60_000_000_000,
            final(self).lifecycle.phase == ServerPhase::Stopping,
            final(self).lifecycle.failure == Some(failure),
            final(self).lifecycle.launch_generation == old(self).lifecycle.launch_generation,
            final(self).valid(),
            final(self).lifecycle.may_follow(old(self).lifecycle),
    {
        let current = self.lifecycle;
        let failure_streak: u32 = current.failure_streak.saturating_add(1);
        self.stopping_reason = Some(StoppingReason::FailureCleanup);
        self.publish(
            LifecycleState {
                phase: ServerPhase::Stopping,
                command_revision: current.command_revision,
                launch_generation: current.launch_generation,
                failure: Some(failure),
                failure_streak,
                phase_started_at: now,
                retry_at: None,
                reconciliation_evidence: ReconciliationEvidence::Absent,
            },
        );
        failure_backoff(failure_streak)
    }

    /// Begins the cooldown of a failed server that is gone, and says when it ends.
    pub fn finish_failure_cleanup(&mut self, retry_delay: Nanos, now: Nanos) -> (retry_at: Nanos)
        requires
            old(self).lifecycle.phase == ServerPhase::Stopping,
            now + retry_delay <= Nanos::MAX,
        ensures
            retry_at == now + retry_delay,
            *final(self) == (SupervisorControl {
                lifecycle: old(self).lifecycle.cooling_down(now, retry_delay as int),
                ..*old(self)
            }),
            final(self).lifecycle.phase == ServerPhase::Cooldown,
            final(self).lifecycle.phase_started_at == now,
            final(self).lifecycle.retry_at == Some(retry_at),
            final(self).lifecycle.command_revision == old(self).lifecycle.command_revision,
            final(self).lifecycle.failure == old(self).lifecycle.failure,
            final(self).lifecycle.failure_streak == old(self).lifecycle.failure_streak,
            final(self).valid(),
            final(self).lifecycle.may_follow(old(self).lifecycle),
    {
        let current = self.lifecycle;
        let retry_at: Nanos = now + retry_delay;
        self.publish(
            LifecycleState {
                phase: ServerPhase::Cooldown,
                command_revision: current.command_revision,
                launch_generation: current.launch_generation,
                failure: current.failure,
                failure_streak: current.failure_streak,
                phase_started_at: now,
                retry_at: Some(retry_at),
                reconciliation_evidence: ReconciliationEvidence::Absent,
            },
        );
        retry_at
    }

    /// Forgets earlier failures of a server that has kept running.
    pub fn reset_failure_streak(&mut self)
        requires
            old(self).lifecycle.phase == ServerPhase::Running,
            old(self).valid(),
        ensures
            *final(self) == (SupervisorControl {
                lifecycle: LifecycleState {
                    failure: None,
                    failure_streak: 0,
                    retry_at: None,
                    ..old(self).lifecycle
                },
                ..*old(self)
            }),
            final(self).valid(),
            final(self).lifecycle.may_follow(old(self).lifecycle),
    {
        let current = self.lifecycle;
        self.publish(
            LifecycleState {
                phase: current.phase,
                command_revision: current.command_revision,
                launch_generation: current.launch_generation,
                failure: None,
                failure_streak: 0,
                phase_started_at: current.phase_started_at,
                retry_at: None,
                reconciliation_evidence: ReconciliationEvidence::Absent,
            },
        );
    }

    /// Publishes that the launched server is ready, and says which cycle runs from now on.
    pub fn publish_running(&mut self, now: Nanos) -> (cycle: BackendCycle)
        requires
            old(self).lifecycle.phase == ServerPhase::Starting,
        ensures
            cycle == BackendCycle(old(self).lifecycle.launch_generation),
            *final(self) == (SupervisorControl {
                lifecycle: old(self).lifecycle.moved_to(ServerPhase::Running, now),
                ..*old(self)
            }),
            final(self).lifecycle.running_cycle() == Some(cycle),
            final(self).valid(),
            final(self).lifecycle.may_follow(old(self).lifecycle),
    {
        let current = self.lifecycle;
        let cycle = BackendCycle::from_launch_generation(current.launch_generation);
        self.publish(
            LifecycleState {
                phase: ServerPhase::Running,
                command_revision: current.command_revision,
                launch_generation: current.launch_generation,
                failure: current.failure,
                failure_streak: current.failure_streak,
                phase_started_at: now,
                retry_at: None,
                reconciliation_evidence: ReconciliationEvidence::Absent,
            },
        );
        cycle
    }

    /// Begins to stop a server that nobody has used for long enough.
    pub fn begin_idle_stop(&mut self, cycle: BackendCycle, now: Nanos)
        requires
            old(self).lifecycle.running_cycle() == Some(cycle),
        ensures
            *final(self) == (SupervisorControl {
                lifecycle: old(self).lifecycle.moved_to(ServerPhase::Stopping, now),
                stopping_reason: Some(StoppingReason::AutomaticIdle),
                ..*old(self)
            }),
            final(self).valid(),
            final(self).lifecycle.may_follow(old(self).lifecycle),
    {
        let current = self.lifecycle;
        self.stopping_reason = Some(StoppingReason::AutomaticIdle);
        self.publish(
            LifecycleState {
                phase: ServerPhase::Stopping,
                command_revision: current.command_revision,
                launch_generation: current.launch_generation,
                failure: current.failure,
                failure_streak: current.failure_streak,
                phase_started_at: now,
                retry_at: None,
                reconciliation_evidence: ReconciliationEvidence::Absent,
            },
        );
    }

    /// The state after a move to a phase that owns its backend; the reason for stopping is
    /// kept only while stopping.
    pub open spec fn phase_set(self, phase: ServerPhase, now: Nanos) -> SupervisorControl {
        SupervisorControl {
            lifecycle: self.lifecycle.moved_to(phase, now),
            stopping_reason: if phase == ServerPhase::Stopping {
                self.stopping_reason
            } else {
                None
            },
            ..self
        }
    }

    /// That the evidence allows a move to a phase that owns its backend.
    pub open spec fn unencumbered(self) -> bool {
        self.lifecycle.reconciliation_evidence == ReconciliationEvidence::Absent
    }

    /// Moves to a phase that owns its backend.
    pub fn set_phase(&mut self, phase: ServerPhase, now: Nanos)
        requires
            phase != ServerPhase::Reconciling,
            phase != ServerPhase::External,
            phase != ServerPhase::Conflict,
            old(self).unencumbered(),
        ensures
            *final(self) == old(self).phase_set(phase, now),
            final(self).valid(),
            final(self).lifecycle.may_follow(old(self).lifecycle),
    {
        let current = self.lifecycle;
        self.publish(
            LifecycleState {
                phase,
                command_revision: current.command_revision,
                launch_generation: current.launch_generation,
                failure: current.failure,
                failure_streak: current.failure_streak,
                phase_started_at: now,
                retry_at: None,
                reconciliation_evidence: ReconciliationEvidence::Absent,
            },
        );
        if phase != ServerPhase::Stopping {
            self.stopping_reason = None;
        }
    }

    /// Begins the reconciliation that guards a launch, and says what earlier ones have shown.
    pub fn begin_reconciliation(&mut self, now: Nanos) -> (evidence: ReconciliationEvidence)
        requires
            old(self).lifecycle.phase == ServerPhase::Stopped || old(self).lifecycle.phase
                == ServerPhase::Cooldown || old(self).lifecycle.phase == ServerPhase::Conflict,
        ensures
            evidence == old(self).lifecycle.reconciliation_evidence,
            *final(self) == (SupervisorControl {
                lifecycle: LifecycleState {
                    phase: ServerPhase::Reconciling,
                    phase_started_at: now,
                    ..old(self).lifecycle
                },
                reconciliation_mode: ReconciliationMode::FinalGate,
                ..*old(self)
            }),
            final(self).valid(),
            final(self).lifecycle.may_follow(old(self).lifecycle),
    {
        let current = self.lifecycle;
        self.reconciliation_mode = ReconciliationMode::FinalGate;
        self.publish(
            LifecycleState {
                phase: ServerPhase::Reconciling,
                command_revision: current.command_revision,
                launch_generation: current.launch_generation,
                failure: current.failure,
                failure_streak: current.failure_streak,
                phase_started_at: now,
                retry_at: current.retry_at,
                reconciliation_evidence: current.reconciliation_evidence,
            },
        );
        current.reconciliation_evidence
    }

    /// Publishes that no backend is there.
    pub fn publish_stopped_after_clean_reconciliation(&mut self, now: Nanos)
        requires
            old(self).lifecycle.phase == ServerPhase::Reconciling,
        ensures
            *final(self) == (SupervisorControl {
                lifecycle: old(self).lifecycle.moved_to(ServerPhase::Stopped, now),
                ..*old(self)
            }),
            final(self).valid(),
            final(self).lifecycle.may_follow(old(self).lifecycle),
    {
        let current = self.lifecycle;
        self.publish(
            LifecycleState {
                phase: ServerPhase::Stopped,
                command_revision: current.command_revision,
                launch_generation: current.launch_generation,
                failure: current.failure,
                failure_streak: current.failure_streak,
                phase_started_at: now,
                retry_at: None,
                reconciliation_evidence: ReconciliationEvidence::Absent,
            },
        );
    }

    /// The state after an owned server was stopped on purpose: earlier failures are forgotten.
    pub open spec fn cleanly_stopped(self, now: Nanos) -> SupervisorControl {
        SupervisorControl {
            lifecycle: LifecycleState {
                failure: None,
                failure_streak: 0,
                ..self.lifecycle.moved_to(ServerPhase::Stopped, now)
            },
            stopping_reason: None,
            ..self
        }
    }

    /// Publishes that an owned server was stopped on purpose and is gone.
    pub fn publish_clean_stopped_after_reap(&mut self, now: Nanos)
        requires
            old(self).lifecycle.phase == ServerPhase::Stopping,
        ensures
            *final(self) == old(self).cleanly_stopped(now),
            final(self).valid(),
            final(self).lifecycle.may_follow(old(self).lifecycle),
    {
        let current = self.lifecycle;
        self.publish(
            LifecycleState {
                phase: ServerPhase::Stopped,
                command_revision: current.command_revision,
                launch_generation: current.launch_generation,
                failure: None,
                failure_streak: 0,
                phase_started_at: now,
                retry_at: None,
                reconciliation_evidence: ReconciliationEvidence::Absent,
            },
        );
        self.stopping_reason = None;
    }

    /// Publishes that an owned server is gone and is about to be started again.
    pub fn publish_reaped_for_restart(&mut self, now: Nanos)
        requires
            old(self).lifecycle.phase == ServerPhase::Stopping,
        ensures
            *final(self) == old(self).phase_set(ServerPhase::Stopped, now),
            final(self).valid(),
            final(self).lifecycle.may_follow(old(self).lifecycle),
    {
        let current = self.lifecycle;
        self.publish(
            LifecycleState {
                phase: ServerPhase::Stopped,
                command_revision: current.command_revision,
                launch_generation: current.launch_generation,
                failure: current.failure,
                failure_streak: current.failure_streak,
                phase_started_at: now,
                retry_at: None,
                reconciliation_evidence: ReconciliationEvidence::Absent,
            },
        );
        self.stopping_reason = None;
    }

    /// That a demand which has to be consumed cannot be: there is no further generation.
    pub open spec fn generation_lacking(self, consume_demand: bool) -> bool {
        consume_demand && self.lifecycle.launch_generation == u64::MAX
    }

    /// The state after a foreign backend was found; a consumed demand uses up a generation, so
    /// that the logins that caused it do not cause another.
    pub open spec fn found_foreign(
        self,
        phase: ServerPhase,
        evidence: ReconciliationEvidence,
        consume_demand: bool,
        now: Nanos,
    ) -> SupervisorControl {
        SupervisorControl {
            lifecycle: LifecycleState {
                phase,
                launch_generation: if consume_demand {
                    (self.lifecycle.launch_generation + 1) as u64
                } else {
                    self.lifecycle.launch_generation
                },
                phase_started_at: now,
                retry_at: None,
                reconciliation_evidence: evidence,
                ..self.lifecycle
            },
            ..self
        }
    }

    /// Publishes that a ready backend is there which this daemon does not own. Says whether
    /// that was possible.
    pub fn publish_external(&mut self, consume_demand: bool, now: Nanos) -> (published: bool)
        requires
            old(self).lifecycle.phase == ServerPhase::Reconciling || old(self).lifecycle.phase
                == ServerPhase::External,
            old(self).valid(),
        ensures
            published == !old(self).generation_lacking(consume_demand),
            published ==> *final(self) == old(self).found_foreign(
                ServerPhase::External,
                ReconciliationEvidence::Positive,
                consume_demand,
                now,
            ),
            !published ==> old(self).raised(*final(self), generation_exhausted()),
            final(self).valid(),
            final(self).lifecycle.may_follow(old(self).lifecycle),
    {
        let current = self.lifecycle;
        let mut launch_generation: u64 = current.launch_generation;
        if consume_demand {
            match self.next_launch_generation() {
                Some(next) => {
                    launch_generation = next;
                },
                None => {
                    return false;
                },
            }
        }
        self.publish(
            LifecycleState {
                phase: ServerPhase::External,
                command_revision: current.command_revision,
                launch_generation,
                failure: current.failure,
                failure_streak: current.failure_streak,
                phase_started_at: now,
                retry_at: None,
                reconciliation_evidence: ReconciliationEvidence::Positive,
            },
        );
        true
    }

    /// Publishes that the probes contradict each other or show a backend that is not ready.
    /// Says whether that was possible.
    pub fn publish_conflict(
        &mut self,
        evidence: ReconciliationEvidence,
        consume_demand: bool,
        now: Nanos,
    ) -> (published: bool)
        requires
            evidence != ReconciliationEvidence::Absent,
            old(self).lifecycle.phase == ServerPhase::Reconciling || old(self).lifecycle.phase
                == ServerPhase::External,
            old(self).valid(),
        ensures
            published == !old(self).generation_lacking(consume_demand),
            published ==> *final(self) == old(self).found_foreign(
                ServerPhase::Conflict,
                evidence,
                consume_demand,
                now,
            ),
            !published ==> old(self).raised(*final(self), generation_exhausted()),
            final(self).valid(),
            final(self).lifecycle.may_follow(old(self).lifecycle),
    {
        let current = self.lifecycle;
        let mut launch_generation: u64 = current.launch_generation;
        if consume_demand {
            match self.next_launch_generation() {
                Some(next) => {
                    launch_generation = next;
                },
                None => {
                    return false;
                },
            }
        }
        self.publish(
            LifecycleState {
                phase: ServerPhase::Conflict,
                command_revision: current.command_revision,
                launch_generation,
                failure: current.failure,
                failure_streak: current.failure_streak,
                phase_started_at: now,
                retry_at: None,
                reconciliation_evidence: evidence,
            },
        );
        true
    }
}

/// Sending an admitted request again changes nothing and gets the same answer, whatever has
/// happened to its gate short of a withdrawal and however much later it comes.
pub proof fn repeated_request_gets_the_same_answer(
    control: SupervisorControl,
    later: SupervisorControl,
    envelope: MutationEnvelope,
    plan: AdmissionPlan,
    now: Nanos,
    gate: AdmissionGate,
    again_at: Nanos,
)
    requires
        control.verdict(envelope, AdmissionGate::Pending, now) == MutationVerdict::Admitted(plan),
        control.after_admission(later, envelope, plan),
        gate != AdmissionGate::Cancelled,
    ensures
        later.verdict(envelope, gate, again_at) == MutationVerdict::Replay,
        later.last_admission->0@ == control.success(envelope, plan),
{
}

/// A request whose client gave up on it in time is neither acted on nor answered.
pub proof fn withdrawn_request_does_nothing(
    control: SupervisorControl,
    later: SupervisorControl,
    envelope: MutationEnvelope,
    handled: HandledMutation,
    now: Nanos,
)
    requires
        control.handled(
            later,
            envelope,
            control.verdict(envelope, AdmissionGate::Cancelled, now),
            handled,
        ),
    ensures
        later == control,
        handled.effect == MutationEffect::Nothing,
        handled.reply is None,
{
}

/// The command revision counts the admitted requests: it rises by one with each of them and
/// stays with every other request.
pub proof fn revision_counts_admissions(
    control: SupervisorControl,
    later: SupervisorControl,
    envelope: MutationEnvelope,
    gate: AdmissionGate,
    handled: HandledMutation,
    now: Nanos,
)
    requires
        control.handled(later, envelope, control.verdict(envelope, gate, now), handled),
    ensures
        later.lifecycle.command_revision == control.lifecycle.command_revision + (
        if control.verdict(envelope, gate, now) is Admitted {
            1int
        } else {
            0int
        }),
        !(control.verdict(envelope, gate, now) is Admitted) ==> later.lifecycle
            == control.lifecycle,
{
}

/// After another request was admitted, the one before it counts as stale: its revision has
/// passed, unless it carries the identifier of the newer one.
pub proof fn superseded_request_is_stale(
    control: SupervisorControl,
    later: SupervisorControl,
    newer: MutationEnvelope,
    plan: AdmissionPlan,
    older: MutationEnvelope,
    gate: AdmissionGate,
    now: Nanos,
    later_at: Nanos,
)
    requires
        control.verdict(newer, AdmissionGate::Pending, now) == MutationVerdict::Admitted(plan),
        control.after_admission(later, newer, plan),
        older.request_id@ != newer.request_id@,
        older.expected_command_revision <= control.lifecycle.command_revision,
        gate != AdmissionGate::Cancelled,
    ensures
        later.verdict(older, gate, later_at) == MutationVerdict::Refuse(
            MutationError::StaleCommandRevision,
        ),
{
}

/// A request that is not a repetition is refused as stale unless its client has seen the current
/// revision; one that has is decided by what the operator may ask for now, and admitted under the
/// next revision.
pub proof fn requests_have_to_be_up_to_date(
    control: SupervisorControl,
    envelope: MutationEnvelope,
    now: Nanos,
)
    requires
        control.last_admission matches Some(last) ==> last.request_id@ != envelope.request_id@,
        control.lifecycle.command_revision < u64::MAX,
    ensures
        ({
            let verdict = control.verdict(envelope, AdmissionGate::Pending, now);
            if envelope.expected_command_revision != control.lifecycle.command_revision {
                verdict == MutationVerdict::Refuse(MutationError::StaleCommandRevision)
            } else {
                match planned(
                    envelope.operation,
                    control.lifecycle,
                    Intent {
                        launch_demand: control.launch_demand,
                        stopping_reason: control.stopping_reason,
                        reconciliation_mode: control.reconciliation_mode,
                    },
                    (control.lifecycle.command_revision + 1) as u64,
                    now,
                ) {
                    Ok(plan) => verdict == MutationVerdict::Admitted(plan)
                        && plan.next.command_revision == envelope.expected_command_revision + 1,
                    Err(error) => verdict == MutationVerdict::Refuse(error),
                }
            }
        }),
{
}

/// An identifier that was used for one change cannot be used for another, nor for the same one
/// seen from another revision.
pub proof fn identifiers_are_not_reused(
    control: SupervisorControl,
    envelope: MutationEnvelope,
    gate: AdmissionGate,
    now: Nanos,
)
    requires
        control.last_admission matches Some(last) && last.request_id@ == envelope.request_id@
            && (last.operation != envelope.operation || last.command_revision
            != envelope.expected_command_revision + 1),
        gate != AdmissionGate::Cancelled,
    ensures
        control.verdict(envelope, gate, now) == MutationVerdict::Refuse(
            MutationError::RequestIdConflict,
        ),
{
}

/// The answer to an admitted request names the server, the change, the request and the revision
/// that it brought; the plan is what the supervisor goes on with.
pub proof fn admitted_requests_are_carried_out(
    control: SupervisorControl,
    later: SupervisorControl,
    envelope: MutationEnvelope,
    plan: AdmissionPlan,
    handled: HandledMutation,
)
    requires
        control.handled(later, envelope, MutationVerdict::Admitted(plan), handled),
    ensures
        later.lifecycle == plan.next,
        later.launch_demand == plan.launch_demand,
        later.stopping_reason == plan.stopping_reason,
        later.reconciliation_mode == control.reconciliation_mode,
        later.server_id == control.server_id,
        later.fatal_error == control.fatal_error,
        later.fatal_raised == control.fatal_raised,
        handled.effect == plan.effect,
        handled.reply matches Some(Ok(success)) && success.server_id@ == control.server_id@
            && success.operation == envelope.operation && success.request_id@
            == envelope.request_id@ && success.command_revision == plan.next.command_revision
            && success.disposition == plan.disposition,
        later.last_admission matches Some(last) && last.request_id@ == envelope.request_id@
            && last.operation == envelope.operation && last.command_revision
            == plan.next.command_revision,
{
}

/// A refused request changes nothing and is told why; a repeated one changes nothing and gets the
/// answer of the first time.
pub proof fn other_requests_change_nothing(
    control: SupervisorControl,
    later: SupervisorControl,
    envelope: MutationEnvelope,
    verdict: MutationVerdict,
    handled: HandledMutation,
)
    requires
        control.handled(later, envelope, verdict, handled),
        verdict is Refuse || verdict is Replay || verdict is Silent,
    ensures
        later == control,
        handled.effect == MutationEffect::Nothing,
        verdict matches MutationVerdict::Refuse(error) ==> handled.reply == Some(
            Err::<MutationSuccess, MutationError>(error),
        ),
        verdict is Replay ==> (handled.reply matches Some(Ok(success)) && success@
            == control.last_admission->0@),
        verdict is Silent ==> handled.reply is None,
{
}

/// A shutdown is due exactly after a failure, behind a closed latch, or on a signal.
pub proof fn shutdowns_are_due_for_a_reason(
    control: SupervisorControl,
    latch_closed: bool,
    signalled: bool,
)
    ensures
        control.fatal_error is Some ==> control.shutdown_due(latch_closed, signalled),
        latch_closed ==> control.shutdown_due(latch_closed, signalled),
        signalled ==> control.shutdown_due(latch_closed, signalled),
        control.fatal_error is None && !latch_closed && !signalled ==> !control.shutdown_due(
            latch_closed,
            signalled,
        ),
{
}

/// The reason for stopping is kept only while stopping; a stop on purpose makes earlier failures
/// forgotten, any other move keeps them. Neither touches the counts of requests and launches, nor
/// what the operator is waiting for.
pub proof fn only_stops_on_purpose_forgive(
    control: SupervisorControl,
    phase: ServerPhase,
    now: Nanos,
)
    ensures
        ({
            let moved = control.phase_set(phase, now);
            &&& moved.lifecycle.phase == phase
            &&& moved.lifecycle.phase_started_at == now
            &&& moved.lifecycle.retry_at is None
            &&& moved.lifecycle.reconciliation_evidence == ReconciliationEvidence::Absent
            &&& moved.fatal_error == control.fatal_error
            &&& moved.lifecycle.failure == control.lifecycle.failure
            &&& moved.lifecycle.failure_streak == control.lifecycle.failure_streak
            &&& moved.lifecycle.launch_generation == control.lifecycle.launch_generation
            &&& moved.lifecycle.command_revision == control.lifecycle.command_revision
            &&& moved.launch_demand == control.launch_demand
            &&& moved.stopping_reason == (if phase == ServerPhase::Stopping {
                control.stopping_reason
            } else {
                None
            })
        }),
        ({
            let stopped = control.cleanly_stopped(now);
            &&& stopped.lifecycle.phase == ServerPhase::Stopped
            &&& stopped.lifecycle.phase_started_at == now
            &&& stopped.lifecycle.retry_at is None
            &&& stopped.lifecycle.reconciliation_evidence == ReconciliationEvidence::Absent
            &&& stopped.fatal_error == control.fatal_error
            &&& stopped.lifecycle.failure is None
            &&& stopped.lifecycle.failure_streak == 0
            &&& stopped.lifecycle.launch_generation == control.lifecycle.launch_generation
            &&& stopped.lifecycle.command_revision == control.lifecycle.command_revision
            &&& stopped.launch_demand == control.launch_demand
            &&& stopped.stopping_reason is None
        }),
{
}

/// A foreign backend is published in the given phase with the given evidence; a demand that it
/// uses up counts as a launch, so that the logins behind it ask for no other one.
pub proof fn foreign_backends_use_up_the_demand(
    control: SupervisorControl,
    phase: ServerPhase,
    evidence: ReconciliationEvidence,
    consume_demand: bool,
    now: Nanos,
    request: super::lifecycle::WakeRequest,
)
    requires
        control.lifecycle.launch_generation < u64::MAX,
        request.observed.launch_generation <= control.lifecycle.launch_generation,
    ensures
        ({
            let found = control.found_foreign(phase, evidence, consume_demand, now);
            &&& found.lifecycle.phase == phase
            &&& found.lifecycle.reconciliation_evidence == evidence
            &&& found.lifecycle.phase_started_at == now
            &&& found.lifecycle.command_revision == control.lifecycle.command_revision
            &&& found.lifecycle.failure == control.lifecycle.failure
            &&& found.lifecycle.failure_streak == control.lifecycle.failure_streak
            &&& found.lifecycle.launch_generation - control.lifecycle.launch_generation == (
            if consume_demand {
                1int
            } else {
                0
            })
            &&& found.launch_demand == control.launch_demand
            &&& consume_demand ==> !request.starts(found.lifecycle) && !request.rechecks(
                found.lifecycle,
            ) && !request.retries(found.lifecycle)
        }),
{
}

/// The first failure is the one that ends a supervisor; later ones do not replace it.
pub proof fn first_failures_stay(
    control: SupervisorControl,
    later: SupervisorControl,
    message: Seq<char>,
)
    requires
        control.raised(later, message),
    ensures
        later.fatal_raised,
        later.lifecycle == control.lifecycle,
        later.fatal_error matches Some(text) && match control.fatal_error {
            Some(first) => text@ == first@,
            None => text@ == message,
        },
{
}

/// A request that was admitted is answered again as long as no other one was; a request whose gate
/// has been passed already is not admitted a second time; and once the revisions are used up the
/// supervisor fails.
pub proof fn requests_are_admitted_once(
    control: SupervisorControl,
    envelope: MutationEnvelope,
    gate: AdmissionGate,
    now: Nanos,
)
    requires
        gate != AdmissionGate::Cancelled,
    ensures
        control.verdict(envelope, gate, now) == MutationVerdict::Replay <==> (
        control.last_admission matches Some(last) && last.request_id@ == envelope.request_id@
            && last.operation == envelope.operation && last.command_revision
            == envelope.expected_command_revision + 1),
        control.verdict(envelope, gate, now) is Admitted ==> gate == AdmissionGate::Pending
            && envelope.expected_command_revision == control.lifecycle.command_revision,
        control.verdict(envelope, gate, now) == MutationVerdict::Exhausted <==> !(
        control.last_admission matches Some(last) && last.request_id@ == envelope.request_id@)
            && envelope.expected_command_revision == u64::MAX && control.lifecycle.command_revision
            == u64::MAX,
{
}

/// Used-up revisions are an internal failure for the client and the end of the supervisor.
pub proof fn used_up_revisions_are_fatal(
    control: SupervisorControl,
    later: SupervisorControl,
    envelope: MutationEnvelope,
    handled: HandledMutation,
)
    requires
        control.handled(later, envelope, MutationVerdict::Exhausted, handled),
    ensures
        later.fatal_raised,
        later.fatal_error is Some,
        control.fatal_error is None ==> (later.fatal_error->0)@
            == "lifecycle command revision exhausted"@,
        later.lifecycle == control.lifecycle,
        later.launch_demand == control.launch_demand,
        handled.effect == MutationEffect::Nothing,
        handled.reply == Some(Err::<MutationSuccess, MutationError>(MutationError::InternalFailure)),
{
}

} // verus!
