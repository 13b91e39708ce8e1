//! Waiting for a launched server to become ready.

use vstd::prelude::*;

use crate::backend_use::BackendCycle;

use super::admission::MutationEffect;
use super::control::SupervisorControl;
use super::lifecycle::{
    backoff, next_streak, FailureCategory, Nanos, ServerPhase, LONGEST_BACKOFF,
};

verus! {

/// What is known of the owned process.
#[derive(Clone, Copy, Debug, PartialEq, Eq, Structural)]
pub enum ChildPoll {
    Running,
    Exited,
    /// Its state could not be found out.
    WaitFailed,
}

/// How the wait for readiness ended.
#[derive(Clone, Copy, Debug, PartialEq, Eq, Structural)]
pub enum ReadinessOutcome {
    Ready,
    StartupTimedOut,
    Exited,
    ProcessWaitFailed,
    Shutdown,
    ExplicitMutation,
}

/// How one cycle of an owned server ended.
#[derive(Clone, Copy, Debug, PartialEq, Eq, Structural)]
pub enum CycleOutcome {
    Stopped,
    Restart,
    Failed { retry_at: Nanos, retry_pending: bool },
    Shutdown,
}

/// What to do next while waiting for readiness.
#[derive(Clone, Copy, Debug, PartialEq, Eq, Structural)]
pub enum ReadinessStep {
    /// Try to connect, for no longer than the given time.
    Attempt { timeout: Nanos },
    /// The time is up: look at the process and the operator's requests once more.
    DeadlineReached,
    Done(ReadinessOutcome),
}

/// What can happen while waiting for readiness.
#[derive(Clone, Copy, Debug, PartialEq, Eq, Structural)]
pub enum ReadinessEvent {
    Shutdown,
    Exited,
    WaitFailed,
    Mutation(MutationEffect),
    WakeClosed,
    Wake,
    /// The attempt succeeded.
    Connected,
    /// The pause between two attempts is over.
    Resumed,
}

/// The pause after a failed attempt.
#[derive(Clone, Copy, Debug, PartialEq, Eq, Structural)]
pub struct AttemptPause {
    pub until: Nanos,
    /// Whether the failure is worth more than a trace.
    pub warn: bool,
}

/// The wait for readiness.
#[derive(Clone, Copy, Debug, PartialEq, Eq, Structural)]
pub struct ReadinessWait {
    pub deadline: Nanos,
    pub failed_attempts: u64,
}

/// The lesser of two moments or lengths of time.
pub open spec fn earlier(left: Nanos, right: Nanos) -> Nanos {
    if left <= right {
        left
    } else {
        right
    }
}

/// How an event ends the wait, if it does.
pub open spec fn readiness_end(event: ReadinessEvent) -> Option<ReadinessOutcome> {
    match event {
        ReadinessEvent::Shutdown | ReadinessEvent::WakeClosed => Some(ReadinessOutcome::Shutdown),
        ReadinessEvent::Exited => Some(ReadinessOutcome::Exited),
        ReadinessEvent::WaitFailed => Some(ReadinessOutcome::ProcessWaitFailed),
        ReadinessEvent::Mutation(MutationEffect::StopOwned) => Some(
            ReadinessOutcome::ExplicitMutation,
        ),
        ReadinessEvent::Connected => Some(ReadinessOutcome::Ready),
        _ => None,
    }
}

impl ReadinessWait {
    /// The wait at its beginning.
    pub fn new(startup_timeout: Nanos, now: Nanos) -> (wait: ReadinessWait)
        requires
            now + startup_timeout <= Nanos::MAX,
        ensures
            wait.deadline == now + startup_timeout,
            wait.failed_attempts == 0,
    {
        ReadinessWait { deadline: now + startup_timeout, failed_attempts: 0 }
    }

    /// What to do next. An attempt never lasts beyond the deadline.
    pub fn next(&self, shutdown_due: bool, attempt_timeout: Nanos, now: Nanos) -> (step:
        ReadinessStep)
        ensures
            step == (if shutdown_due {
                ReadinessStep::Done(ReadinessOutcome::Shutdown)
            } else if now >= self.deadline {
                ReadinessStep::DeadlineReached
            } else {
                ReadinessStep::Attempt {
                    timeout: earlier(attempt_timeout, (self.deadline - now) as Nanos),
                }
            }),
            step matches ReadinessStep::Attempt { timeout } ==> now + timeout <= self.deadline
                && timeout <= attempt_timeout && (timeout == attempt_timeout || now + timeout
                == self.deadline),
    {
        if shutdown_due {
            return ReadinessStep::Done(ReadinessOutcome::Shutdown);
        }
        if now >= self.deadline {
            return ReadinessStep::DeadlineReached;
        }
        let remaining: Nanos = self.deadline - now;
        ReadinessStep::Attempt {
            timeout: if attempt_timeout <= remaining {
                attempt_timeout
            } else {
                remaining
            },
        }
    }

    /// Takes an event, during an attempt as well as between two of them.
    pub fn event(&self, event: ReadinessEvent) -> (outcome: Option<ReadinessOutcome>)
        ensures
            outcome == readiness_end(event),
    {
        match event {
            ReadinessEvent::Shutdown | ReadinessEvent::WakeClosed => Some(
                ReadinessOutcome::Shutdown,
            ),
            ReadinessEvent::Exited => Some(ReadinessOutcome::Exited),
            ReadinessEvent::WaitFailed => Some(ReadinessOutcome::ProcessWaitFailed),
            ReadinessEvent::Mutation(effect) => if effect == MutationEffect::StopOwned {
                Some(ReadinessOutcome::ExplicitMutation)
            } else {
                None
            },
            ReadinessEvent::Connected => Some(ReadinessOutcome::Ready),
            ReadinessEvent::Wake | ReadinessEvent::Resumed => None,
        }
    }

    /// Counts a failed attempt and says how long to pause: until the next attempt is due, but
    /// not beyond the deadline. The first failure and every thirtieth are worth a warning.
    pub fn attempt_failed(&mut self, retry_interval: Nanos, now: Nanos) -> (pause: AttemptPause)
        requires
            old(self).failed_attempts < u64::MAX,
            now + retry_interval <= Nanos::MAX,
        ensures
            *final(self) == (ReadinessWait {
                failed_attempts: (old(self).failed_attempts + 1) as u64,
                ..*old(self)
            }),
            pause.until == earlier((now + retry_interval) as Nanos, old(self).deadline),
            pause.until == now + retry_interval || pause.until == old(self).deadline,
            pause.until <= now + retry_interval,
            pause.until <= old(self).deadline,
            pause.warn == (final(self).failed_attempts == 1 || final(self).failed_attempts % 30
                == 0),
    {
        self.failed_attempts = self.failed_attempts + 1;
        let retry_at: Nanos = now + retry_interval;
        AttemptPause {
            until: if retry_at <= self.deadline {
                retry_at
            } else {
                self.deadline
            },
            warn: self.failed_attempts == 1 || self.failed_attempts % 30 == 0,
        }
    }
}

/// The first look at the process once the time for starting is up.
pub fn deadline_first_look(child: ChildPoll) -> (outcome: Option<ReadinessOutcome>)
    ensures
        outcome == (match child {
            ChildPoll::Running => None,
            ChildPoll::Exited => Some(ReadinessOutcome::Exited),
            ChildPoll::WaitFailed => Some(ReadinessOutcome::ProcessWaitFailed),
        }),
{
    match child {
        ChildPoll::Running => None,
        ChildPoll::Exited => Some(ReadinessOutcome::Exited),
        ChildPoll::WaitFailed => Some(ReadinessOutcome::ProcessWaitFailed),
    }
}

/// What comes after the first look, once a request that was waiting has been handled: an
/// operator's stop comes before a shutdown, a shutdown before the verdict that the start took
/// too long, and an exit before that verdict.
pub fn readiness_deadline_outcome(
    handled: MutationEffect,
    shutdown_due: bool,
    child: ChildPoll,
) -> (outcome: ReadinessOutcome)
    ensures
        outcome == (if handled == MutationEffect::StopOwned {
            ReadinessOutcome::ExplicitMutation
        } else if shutdown_due {
            ReadinessOutcome::Shutdown
        } else {
            match child {
                ChildPoll::Running => ReadinessOutcome::StartupTimedOut,
                ChildPoll::Exited => ReadinessOutcome::Exited,
                ChildPoll::WaitFailed => ReadinessOutcome::ProcessWaitFailed,
            }
        }),
{
    if handled == MutationEffect::StopOwned {
        return ReadinessOutcome::ExplicitMutation;
    }
    if shutdown_due {
        return ReadinessOutcome::Shutdown;
    }
    match child {
        ChildPoll::Running => ReadinessOutcome::StartupTimedOut,
        ChildPoll::Exited => ReadinessOutcome::Exited,
        ChildPoll::WaitFailed => ReadinessOutcome::ProcessWaitFailed,
    }
}

/// What to do with an owned server after the wait for readiness.
#[derive(Clone, Copy, Debug, PartialEq, Eq, Structural)]
pub enum CycleStep {
    /// Watch the running server.
    Monitor(BackendCycle),
    /// Stop it because it did not become ready in time.
    StopFailed,
    /// Clean up after its process could not be waited for.
    ReapAfterWaitError,
    /// Stop it because the daemon shuts down.
    StopForShutdown,
    /// Stop it because the operator said so.
    StopExplicit,
    /// Its process is gone; the cycle is over.
    Finished(CycleOutcome),
}

/// Takes the outcome of the wait for readiness. A server that is ready while no shutdown is
/// due counts as running from now on.
pub fn run_server_cycle(
    control: &mut SupervisorControl,
    readiness: ReadinessOutcome,
    shutdown_due: bool,
    now: Nanos,
) -> (step: CycleStep)
    requires
        old(control).valid(),
        readiness != ReadinessOutcome::ExplicitMutation ==> old(control).lifecycle.phase
            == ServerPhase::Starting,
        now + LONGEST_BACKOFF <= Nanos::MAX,
    ensures
        final(control).valid(),
        final(control).lifecycle.may_follow(old(control).lifecycle),
        step == (match readiness {
            ReadinessOutcome::Ready => if shutdown_due {
                CycleStep::StopForShutdown
            } else {
                CycleStep::Monitor(BackendCycle(old(control).lifecycle.launch_generation))
            },
            ReadinessOutcome::StartupTimedOut => CycleStep::StopFailed,
            ReadinessOutcome::Exited => CycleStep::Finished(
                CycleOutcome::Failed {
                    retry_at: (now + backoff(next_streak(old(control).lifecycle.failure_streak)))
                        as Nanos,
                    retry_pending: false,
                },
            ),
            ReadinessOutcome::ProcessWaitFailed => CycleStep::ReapAfterWaitError,
            ReadinessOutcome::Shutdown => CycleStep::StopForShutdown,
            ReadinessOutcome::ExplicitMutation => CycleStep::StopExplicit,
        }),
        *final(control) == (match step {
            CycleStep::Monitor(_) => SupervisorControl {
                lifecycle: old(control).lifecycle.moved_to(ServerPhase::Running, now),
                ..*old(control)
            },
            CycleStep::Finished(_) => SupervisorControl {
                lifecycle: old(control).lifecycle.failed(
                    FailureCategory::ExitedBeforeReady,
                ).cooling_down(
                    now,
                    backoff(next_streak(old(control).lifecycle.failure_streak)) as int,
                ),
                ..*old(control)
            },
            _ => *old(control),
        }),
{
    match readiness {
        ReadinessOutcome::Ready => {
            if shutdown_due {
                CycleStep::StopForShutdown
            } else {
                CycleStep::Monitor(control.publish_running(now))
            }
        },
        ReadinessOutcome::StartupTimedOut => CycleStep::StopFailed,
        ReadinessOutcome::Exited => CycleStep::Finished(
            reaped_failure(control, FailureCategory::ExitedBeforeReady, now),
        ),
        ReadinessOutcome::ProcessWaitFailed => CycleStep::ReapAfterWaitError,
        ReadinessOutcome::Shutdown => CycleStep::StopForShutdown,
        ReadinessOutcome::ExplicitMutation => CycleStep::StopExplicit,
    }
}

/// Ends the cycle of a server whose process is gone although nobody stopped it.
pub fn reaped_failure(control: &mut SupervisorControl, failure: FailureCategory, now: Nanos) -> (outcome:
    CycleOutcome)
    requires
        old(control).lifecycle.phase == ServerPhase::Starting || old(control).lifecycle.phase
            == ServerPhase::Running,
        now + LONGEST_BACKOFF <= Nanos::MAX,
    ensures
        final(control).valid(),
        final(control).lifecycle.may_follow(old(control).lifecycle),
        outcome == (CycleOutcome::Failed {
            retry_at: (now + backoff(next_streak(old(control).lifecycle.failure_streak))) as Nanos,
            retry_pending: false,
        }),
        *final(control) == (SupervisorControl {
            lifecycle: old(control).lifecycle.failed(failure).cooling_down(
                now,
                backoff(next_streak(old(control).lifecycle.failure_streak)) as int,
            ),
            ..*old(control)
        }),
{
    let retry_at: Nanos = control.record_reaped_failure(failure, now);
    CycleOutcome::Failed { retry_at, retry_pending: false }
}

/// The lesser of two is one of them and no greater than either.
pub proof fn the_lesser_is_one_of_both(left: Nanos, right: Nanos)
    ensures
        earlier(left, right) <= left,
        earlier(left, right) <= right,
        earlier(left, right) == left || earlier(left, right) == right,
{
}

/// Only a connection makes a server ready; its end, a stop of the operator and a shutdown end the
/// wait as what they are, and nothing else ends it.
pub proof fn readiness_is_a_connection(event: ReadinessEvent)
    ensures
        readiness_end(event) == Some(ReadinessOutcome::Ready) <==> event
            == ReadinessEvent::Connected,
        readiness_end(event) == Some(ReadinessOutcome::Exited) <==> event
            == ReadinessEvent::Exited,
        readiness_end(event) == Some(ReadinessOutcome::ProcessWaitFailed) <==> event
            == ReadinessEvent::WaitFailed,
        readiness_end(event) == Some(ReadinessOutcome::ExplicitMutation) <==> event
            == ReadinessEvent::Mutation(MutationEffect::StopOwned),
        readiness_end(event) == Some(ReadinessOutcome::Shutdown) <==> event
            == ReadinessEvent::Shutdown || event == ReadinessEvent::WakeClosed,
        readiness_end(event) != Some(ReadinessOutcome::StartupTimedOut),
{
}

} // verus!
