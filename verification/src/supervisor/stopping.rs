//! Stopping an owned server: by the operator, for idleness, after a failed start, and when the
//! daemon shuts down.

use vstd::prelude::*;
use vstd::string::StringExecFns;

use crate::text::{in_context, maybe_text, with_context};

use super::admission::StoppingReason;
use super::control::SupervisorControl;
use super::lifecycle::{Nanos, ServerPhase, WakeRequest};
use super::monitor::ChildEnd;
use super::readiness::CycleOutcome;
use super::waiting::SupervisorEvent;

verus! {

/// Why the proxy could not be brought to rest before a stop.
#[derive(Clone, Copy, Debug, PartialEq, Eq, Structural)]
pub enum QuiescenceError {
    /// The runtime answered with a failure of its own.
    AcknowledgementFailed,
    AcknowledgementClosed,
    DrainClosed,
    FatalDuringQuiescence,
    FatalDuringAcquisition,
    QuiescenceTimedOut,
    AcquisitionTimedOut,
}

impl QuiescenceError {
    /// The text of the error. `cause` is what the channel or the runtime reported, where one
    /// of them did.
    pub open spec fn text(self, cause: Seq<char>) -> Seq<char> {
        match self {
            QuiescenceError::AcknowledgementFailed => cause,
            QuiescenceError::AcknowledgementClosed => in_context(
                "runtime quiescence acknowledgement channel closed"@,
                cause,
            ),
            QuiescenceError::DrainClosed => in_context(
                "runtime-drain indication closed during daemon shutdown"@,
                cause,
            ),
            QuiescenceError::FatalDuringQuiescence => {
                "supervisor entered fatal shutdown during runtime quiescence"@
            },
            QuiescenceError::FatalDuringAcquisition => {
                "supervisor entered fatal shutdown while acquiring backend-use exclusivity"@
            },
            QuiescenceError::QuiescenceTimedOut => "runtime quiescence timed out"@,
            QuiescenceError::AcquisitionTimedOut => {
                "exclusive backend-use acquisition timed out after runtime quiescence"@
            },
        }
    }

    /// The text of the error.
    pub fn describe(self, cause: &str) -> (text: String)
        ensures
            text@ == self.text(cause@),
    {
        match self {
            QuiescenceError::AcknowledgementFailed => cause.to_owned(),
            QuiescenceError::AcknowledgementClosed => with_context(
                "runtime quiescence acknowledgement channel closed",
                cause,
            ),
            QuiescenceError::DrainClosed => with_context(
                "runtime-drain indication closed during daemon shutdown",
                cause,
            ),
            QuiescenceError::FatalDuringQuiescence => {
                "supervisor entered fatal shutdown during runtime quiescence".to_owned()
            },
            QuiescenceError::FatalDuringAcquisition => {
                "supervisor entered fatal shutdown while acquiring backend-use exclusivity".to_owned()
            },
            QuiescenceError::QuiescenceTimedOut => "runtime quiescence timed out".to_owned(),
            QuiescenceError::AcquisitionTimedOut => {
                "exclusive backend-use acquisition timed out after runtime quiescence".to_owned()
            },
        }
    }
}

/// Bringing the proxy to rest and getting the backend for oneself: first the runtime has to
/// confirm that it let go of its clients, then nobody may hold the backend any more.
#[derive(Clone, Copy, Debug, PartialEq, Eq, Structural)]
pub struct Quiescence {
    /// The backend was free from the start.
    pub acquired: bool,
    pub child_end: Option<ChildEnd>,
    pub shutdown_received: bool,
    pub acknowledgement_open: bool,
    /// The runtime is at rest; what is missing is sole use of the backend.
    pub acquiring: bool,
}

/// What can happen meanwhile.
#[derive(Clone, Copy, Debug, PartialEq, Eq, Structural)]
pub enum QuiescenceEvent {
    Shutdown,
    ChildEnded(ChildEnd),
    MutationHandled,
    WakeClosed,
    Wake(WakeRequest),
    Acknowledged,
    AcknowledgementFailed,
    AcknowledgementClosed,
    DrainChanged,
    DrainClosed,
    Acquired,
    Deadline,
}

/// What to do next.
#[derive(Clone, Copy, Debug, PartialEq, Eq, Structural)]
pub enum QuiescenceStep {
    Wait,
    /// The runtime is at rest: wait for sole use of the backend.
    Acquire,
    Done,
    Failed(QuiescenceError),
}

impl Quiescence {
    /// At the beginning; `acquired` tells whether the backend was free at once.
    pub fn new(acquired: bool) -> (state: Quiescence)
        ensures
            state == (Quiescence {
                acquired,
                child_end: None,
                shutdown_received: false,
                acknowledgement_open: true,
                acquiring: false,
            }),
    {
        Quiescence {
            acquired,
            child_end: None,
            shutdown_received: false,
            acknowledgement_open: true,
            acquiring: false,
        }
    }

    /// What comes once the runtime is at rest.
    pub open spec fn rested_step(self) -> QuiescenceStep {
        if self.acquired {
            QuiescenceStep::Done
        } else {
            QuiescenceStep::Acquire
        }
    }

    /// The state once the runtime is at rest.
    pub open spec fn rested(self) -> Quiescence {
        Quiescence { acquiring: !self.acquired, ..self }
    }

    fn rest(&mut self) -> (step: QuiescenceStep)
        requires
            !old(self).acquiring,
        ensures
            step == old(self).rested_step(),
            *final(self) == old(self).rested(),
    {
        if self.acquired {
            QuiescenceStep::Done
        } else {
            self.acquiring = true;
            QuiescenceStep::Acquire
        }
    }

    /// What a look before waiting leads to.
    pub open spec fn look_step(self, runtime_drained: bool) -> QuiescenceStep {
        if self.shutdown_received && runtime_drained {
            self.rested_step()
        } else {
            QuiescenceStep::Wait
        }
    }

    /// Looks before waiting: during a shutdown a drained runtime is at rest without saying so.
    pub fn before_waiting(&mut self, runtime_drained: bool) -> (step: QuiescenceStep)
        requires
            !old(self).acquiring,
        ensures
            step == old(self).look_step(runtime_drained),
            *final(self) == (if old(self).shutdown_received && runtime_drained {
                old(self).rested()
            } else {
                *old(self)
            }),
    {
        if self.shutdown_received && runtime_drained {
            return self.rest();
        }
        QuiescenceStep::Wait
    }

    /// What an event leads to.
    pub open spec fn event_step(self, control: SupervisorControl, event: QuiescenceEvent)
        -> QuiescenceStep {
        match event {
            QuiescenceEvent::MutationHandled => if control.fatal_error is None {
                QuiescenceStep::Wait
            } else if self.acquiring {
                QuiescenceStep::Failed(QuiescenceError::FatalDuringAcquisition)
            } else {
                QuiescenceStep::Failed(QuiescenceError::FatalDuringQuiescence)
            },
            QuiescenceEvent::Acknowledged => if self.acquiring {
                QuiescenceStep::Wait
            } else {
                self.rested_step()
            },
            QuiescenceEvent::AcknowledgementFailed => if self.acquiring {
                QuiescenceStep::Wait
            } else {
                QuiescenceStep::Failed(QuiescenceError::AcknowledgementFailed)
            },
            QuiescenceEvent::AcknowledgementClosed => if self.acquiring
                || self.shutdown_received {
                QuiescenceStep::Wait
            } else {
                QuiescenceStep::Failed(QuiescenceError::AcknowledgementClosed)
            },
            QuiescenceEvent::DrainClosed => if self.acquiring {
                QuiescenceStep::Wait
            } else {
                QuiescenceStep::Failed(QuiescenceError::DrainClosed)
            },
            QuiescenceEvent::Acquired => if self.acquiring {
                QuiescenceStep::Done
            } else {
                QuiescenceStep::Wait
            },
            QuiescenceEvent::Deadline => if self.acquiring {
                QuiescenceStep::Failed(QuiescenceError::AcquisitionTimedOut)
            } else {
                QuiescenceStep::Failed(QuiescenceError::QuiescenceTimedOut)
            },
            _ => QuiescenceStep::Wait,
        }
    }

    /// The state after an event.
    pub open spec fn event_state(self, event: QuiescenceEvent) -> Quiescence {
        match event {
            QuiescenceEvent::Shutdown | QuiescenceEvent::WakeClosed => Quiescence {
                shutdown_received: true,
                ..self
            },
            QuiescenceEvent::ChildEnded(end) => Quiescence { child_end: Some(end), ..self },
            QuiescenceEvent::Acknowledged => if self.acquiring {
                self
            } else {
                self.rested()
            },
            QuiescenceEvent::AcknowledgementClosed => Quiescence {
                acknowledgement_open: self.acknowledgement_open && !self.shutdown_received,
                ..self
            },
            _ => self,
        }
    }

    /// Takes an event. A login that saw the stop asks for a start after it.
    pub fn quiesce_runtime_and_acquire_exclusive(
        &mut self,
        control: &mut SupervisorControl,
        event: QuiescenceEvent,
    ) -> (step: QuiescenceStep)
        ensures
            step == old(self).event_step(*old(control), event),
            step is Failed || *final(self) == old(self).event_state(event),
            *final(control) == (match event {
                QuiescenceEvent::Wake(request) => restart_latched(*old(control), request),
                _ => *old(control),
            }),
    {
        match event {
            QuiescenceEvent::Shutdown | QuiescenceEvent::WakeClosed => {
                self.shutdown_received = true;
                QuiescenceStep::Wait
            },
            QuiescenceEvent::ChildEnded(end) => {
                self.child_end = Some(end);
                QuiescenceStep::Wait
            },
            QuiescenceEvent::MutationHandled => {
                if control.fatal_error.is_none() {
                    QuiescenceStep::Wait
                } else if self.acquiring {
                    QuiescenceStep::Failed(QuiescenceError::FatalDuringAcquisition)
                } else {
                    QuiescenceStep::Failed(QuiescenceError::FatalDuringQuiescence)
                }
            },
            QuiescenceEvent::Wake(request) => {
                latch_restart(control, request);
                QuiescenceStep::Wait
            },
            QuiescenceEvent::Acknowledged => {
                if self.acquiring {
                    QuiescenceStep::Wait
                } else {
                    self.rest()
                }
            },
            QuiescenceEvent::AcknowledgementFailed => {
                if self.acquiring {
                    QuiescenceStep::Wait
                } else {
                    QuiescenceStep::Failed(QuiescenceError::AcknowledgementFailed)
                }
            },
            QuiescenceEvent::AcknowledgementClosed => {
                if self.shutdown_received {
                    self.acknowledgement_open = false;
                    QuiescenceStep::Wait
                } else if self.acquiring {
                    QuiescenceStep::Wait
                } else {
                    QuiescenceStep::Failed(QuiescenceError::AcknowledgementClosed)
                }
            },
            QuiescenceEvent::DrainChanged => QuiescenceStep::Wait,
            QuiescenceEvent::DrainClosed => {
                if self.acquiring {
                    QuiescenceStep::Wait
                } else {
                    QuiescenceStep::Failed(QuiescenceError::DrainClosed)
                }
            },
            QuiescenceEvent::Acquired => {
                if self.acquiring {
                    QuiescenceStep::Done
                } else {
                    QuiescenceStep::Wait
                }
            },
            QuiescenceEvent::Deadline => {
                if self.acquiring {
                    QuiescenceStep::Failed(QuiescenceError::AcquisitionTimedOut)
                } else {
                    QuiescenceStep::Failed(QuiescenceError::QuiescenceTimedOut)
                }
            },
        }
    }
}

/// Nothing is done with the server before the runtime let go of its clients, by saying so or by
/// being drained during a shutdown, nor before the backend is held alone: that is what begins
/// the wait for the backend, and what ends the whole.
pub proof fn quiescence_needs_rest_and_sole_use(
    state: Quiescence,
    control: SupervisorControl,
    event: QuiescenceEvent,
    runtime_drained: bool,
)
    ensures
        state.event_step(control, event) == QuiescenceStep::Done ==> (state.acquiring && event
            == QuiescenceEvent::Acquired) || (!state.acquiring && state.acquired && event
            == QuiescenceEvent::Acknowledged),
        !state.acquiring && state.event_state(event).acquiring ==> event
            == QuiescenceEvent::Acknowledged,
        state.look_step(runtime_drained) != QuiescenceStep::Wait ==> state.shutdown_received
            && runtime_drained,
        state.look_step(runtime_drained) == QuiescenceStep::Done ==> state.acquired,
{
}

/// The state after a login that came while the server was being stopped.
pub open spec fn restart_latched(control: SupervisorControl, request: WakeRequest)
    -> SupervisorControl {
    SupervisorControl {
        launch_demand: control.launch_demand || request.restarts(control.lifecycle),
        ..control
    }
}

/// Takes a login that came while the server was being stopped: one that saw this stop asks for
/// a start after it.
pub fn latch_restart(control: &mut SupervisorControl, request: WakeRequest)
    ensures
        *final(control) == restart_latched(*old(control), request),
{
    if request.requests_restart(control.lifecycle) {
        control.launch_demand = true;
    }
}

/// Notes that the proxy could not be brought to rest for a stop that the operator asked for.
fn explicit_quiescence_failed(control: &mut SupervisorControl, error: &str)
    ensures
        old(control).raised(
            *final(control),
            in_context(
                "explicit lifecycle mutation could not safely quiesce proxy use"@,
                error@,
            ),
        ),
{
    let fatal = with_context(
        "explicit lifecycle mutation could not safely quiesce proxy use",
        error,
    );
    control.raise_fatal(fatal.as_str());
}

/// How to go on with a stop that the operator asked for.
#[derive(Clone, Copy, Debug, PartialEq, Eq, Structural)]
pub enum ExplicitStopStep {
    /// The proxy may still use the server: stop it as in a shutdown, which this is now.
    StopForShutdown,
    /// The process could not be waited for: end it by force and fail.
    ForceAfterWaitError,
    /// The process is gone already.
    Reaped,
    /// Stop the process and see it gone.
    StopAndReap,
}

/// How to go on with a stop that the operator asked for, after bringing the proxy to rest. If
/// that failed, the supervisor has failed.
pub fn explicit_stop_step(control: &mut SupervisorControl, quiesced: &Result<Quiescence, String>) -> (step:
    ExplicitStopStep)
    ensures
        match *quiesced {
            Err(error) => {
                &&& step == ExplicitStopStep::StopForShutdown
                &&& old(control).raised(
                    *final(control),
                    in_context(
                        "explicit lifecycle mutation could not safely quiesce proxy use"@,
                        error@,
                    ),
                )
            },
            Ok(quiescence) => {
                &&& *final(control) == *old(control)
                &&& step == (match quiescence.child_end {
                    Some(ChildEnd::WaitFailed) => ExplicitStopStep::ForceAfterWaitError,
                    Some(ChildEnd::Exited) => ExplicitStopStep::Reaped,
                    None => ExplicitStopStep::StopAndReap,
                })
            },
        },
{
    match quiesced {
        Err(error) => {
            explicit_quiescence_failed(control, error.as_str());
            ExplicitStopStep::StopForShutdown
        },
        Ok(quiescence) => match quiescence.child_end {
            Some(ChildEnd::WaitFailed) => ExplicitStopStep::ForceAfterWaitError,
            Some(ChildEnd::Exited) => ExplicitStopStep::Reaped,
            None => ExplicitStopStep::StopAndReap,
        },
    }
}

/// The text of a failure and of a forced cleanup that may have failed after it.
pub open spec fn forced_text(
    context: Seq<char>,
    forced: Option<Seq<char>>,
    error: Seq<char>,
) -> Seq<char> {
    match forced {
        None => error,
        Some(cleanup) => in_context(in_context(context, cleanup), error),
    }
}

/// Adds to the text of a failure that a forced cleanup failed after it, if it did.
pub fn with_forced_cleanup(context: &str, forced: &Option<String>, error: String) -> (text: String)
    ensures
        text@ == forced_text(
            context@,
            match *forced {
                Some(cleanup) => Some(cleanup@),
                None => None,
            },
            error@,
        ),
{
    match forced {
        None => error,
        Some(cleanup) => {
            let circumstance = with_context(context, cleanup.as_str());
            with_context(circumstance.as_str(), error.as_str())
        },
    }
}

/// Concludes a stop that the operator asked for when the process could not be waited for. The
/// daemon is told; the text says what happened.
pub fn explicit_wait_failed(
    control: &mut SupervisorControl,
    wait_error: &str,
    forced: &Option<String>,
) -> (text: String)
    ensures
        *final(control) == (SupervisorControl { fatal_raised: true, ..*old(control) }),
        text@ == (match maybe_text(*forced) {
            None => in_context("failed to wait for the server process"@, wait_error@),
            Some(cleanup) => in_context(
                in_context(
                    "failed to wait for the server process; forced cleanup also failed"@,
                    cleanup,
                ),
                wait_error@,
            ),
        }),
{
    control.fatal_raised = true;
    match forced {
        None => with_context("failed to wait for the server process", wait_error),
        Some(cleanup) => {
            let circumstance = with_context(
                "failed to wait for the server process; forced cleanup also failed",
                cleanup.as_str(),
            );
            with_context(circumstance.as_str(), wait_error)
        },
    }
}

/// Takes an event while a server is cleaned up that the operator stopped. Says whether a
/// shutdown has come.
pub fn wait_for_explicit_cleanup(
    control: &mut SupervisorControl,
    shutdown_received: bool,
    event: SupervisorEvent,
) -> (shutdown: bool)
    ensures
        shutdown == (shutdown_received || event == SupervisorEvent::Shutdown),
        *final(control) == (match event {
            SupervisorEvent::Wake(request) => restart_latched(*old(control), request),
            _ => *old(control),
        }),
{
    match event {
        SupervisorEvent::Shutdown => true,
        SupervisorEvent::Wake(request) => {
            latch_restart(control, request);
            shutdown_received
        },
        SupervisorEvent::Mutation(_)
        | SupervisorEvent::WakeClosed
        | SupervisorEvent::Deadline => shutdown_received,
    }
}

/// Concludes a stop that the operator asked for when cleaning up failed.
pub fn explicit_cleanup_failed(
    control: &mut SupervisorControl,
    error: &str,
    forced: &Option<String>,
) -> (text: String)
    ensures
        *final(control) == (SupervisorControl { fatal_raised: true, ..*old(control) }),
        text@ == forced_text(
            "forced cleanup also failed"@,
            maybe_text(*forced),
            in_context("explicit lifecycle cleanup or reap failed"@, error@),
        ),
{
    control.fatal_raised = true;
    let fatal = with_context("explicit lifecycle cleanup or reap failed", error);
    with_forced_cleanup("forced cleanup also failed", forced, fatal)
}

/// Concludes a stop or restart that the operator asked for once the process is gone. A stop
/// forgets earlier failures, a restart keeps them. Whatever was asked for meanwhile is met by a
/// start, unless the daemon shuts down.
pub fn stop_explicit_server(control: &mut SupervisorControl, shutdown_received: bool, now: Nanos) -> (outcome:
    CycleOutcome)
    requires
        old(control).lifecycle.phase == ServerPhase::Stopping,
        old(control).stopping_reason == Some(StoppingReason::ExplicitStop) || old(
            control,
        ).stopping_reason == Some(StoppingReason::ExplicitRestart),
    ensures
        final(control).valid(),
        final(control).lifecycle.may_follow(old(control).lifecycle),
        outcome == (if shutdown_received {
            CycleOutcome::Shutdown
        } else if old(control).launch_demand {
            CycleOutcome::Restart
        } else {
            CycleOutcome::Stopped
        }),
        *final(control) == (SupervisorControl {
            launch_demand: false,
            ..if old(control).stopping_reason == Some(StoppingReason::ExplicitRestart) {
                old(control).phase_set(ServerPhase::Stopped, now)
            } else {
                old(control).cleanly_stopped(now)
            }
        }),
{
    if control.stopping_reason == Some(StoppingReason::ExplicitRestart) {
        control.publish_reaped_for_restart(now);
    } else {
        control.publish_clean_stopped_after_reap(now);
    }
    if shutdown_received {
        control.launch_demand = false;
        CycleOutcome::Shutdown
    } else if control.launch_demand {
        control.launch_demand = false;
        CycleOutcome::Restart
    } else {
        CycleOutcome::Stopped
    }
}

/// Begins to stop an owned server because the daemon shuts down. Says whether it is ended by
/// force: after a failure of the supervisor it is.
pub fn stop_for_shutdown(control: &mut SupervisorControl, now: Nanos) -> (forced: bool)
    requires
        old(control).unencumbered(),
    ensures
        forced == (old(control).fatal_error is Some),
        *final(control) == (SupervisorControl {
            lifecycle: old(control).lifecycle.moved_to(ServerPhase::Stopping, now),
            stopping_reason: Some(StoppingReason::DaemonShutdown),
            ..*old(control)
        }),
        final(control).valid(),
        final(control).lifecycle.may_follow(old(control).lifecycle),
{
    control.stopping_reason = Some(StoppingReason::DaemonShutdown);
    control.set_phase(ServerPhase::Stopping, now);
    control.fatal_error.is_some()
}

/// The text of a failure whose cleanup could not be sure of the proxy.
pub open spec fn uncertain_drain(cause: Seq<char>) -> Seq<char> {
    in_context(
        "runtime drain or backend-use exclusivity remained uncertain during fatal cleanup"@,
        cause,
    )
}

/// Concludes the stop of a server whose supervisor has failed. The failure is kept, with what
/// else went wrong in front of it.
pub fn fatal_shutdown_cleanup(
    control: &mut SupervisorControl,
    proxy_released: bool,
    forced: &Option<String>,
) -> (result: Result<CycleOutcome, String>)
    requires
        old(control).fatal_error is Some,
    ensures
        ({
            let cause = (old(control).fatal_error->0)@;
            let known = if proxy_released {
                cause
            } else {
                uncertain_drain(cause)
            };
            match maybe_text(*forced) {
                None => {
                    &&& result == Ok::<CycleOutcome, String>(CycleOutcome::Shutdown)
                    &&& *final(control) == (SupervisorControl {
                        fatal_error: final(control).fatal_error,
                        ..*old(control)
                    })
                    &&& final(control).fatal_error matches Some(text) && text@ == known
                },
                Some(cleanup) => {
                    &&& *final(control) == (SupervisorControl {
                        fatal_error: None,
                        ..*old(control)
                    })
                    &&& result matches Err(text) && text@ == in_context(
                        in_context(
                            "forced process cleanup failed during fatal shutdown"@,
                            cleanup,
                        ),
                        known,
                    )
                },
            }
        }),
{
    let mut cause = String::new();
    if let Some(text) = control.fatal_error.take() {
        cause = text;
    }
    if !proxy_released {
        cause = with_context(
            "runtime drain or backend-use exclusivity remained uncertain during fatal cleanup",
            cause.as_str(),
        );
    }
    match forced {
        None => {
            control.fatal_error = Some(cause);
            Ok(CycleOutcome::Shutdown)
        },
        Some(cleanup) => {
            let circumstance = with_context(
                "forced process cleanup failed during fatal shutdown",
                cleanup.as_str(),
            );
            Err(with_context(circumstance.as_str(), cause.as_str()))
        },
    }
}

/// The text of a failed cleanup at shutdown.
pub fn shutdown_cleanup_failed(cleanup_error: &str, forced: &Option<String>) -> (text: String)
    ensures
        text@ == (match maybe_text(*forced) {
            None => in_context("server shutdown cleanup initially failed"@, cleanup_error@),
            Some(cleanup) => in_context(
                in_context(
                    "server shutdown cleanup failed; forced cleanup also failed"@,
                    cleanup,
                ),
                cleanup_error@,
            ),
        }),
{
    match forced {
        None => with_context("server shutdown cleanup initially failed", cleanup_error),
        Some(cleanup) => {
            let circumstance = with_context(
                "server shutdown cleanup failed; forced cleanup also failed",
                cleanup.as_str(),
            );
            with_context(circumstance.as_str(), cleanup_error)
        },
    }
}

/// The text of a failed wait for the process and of what cleaning up after it brought.
pub open spec fn wait_error_text(
    wait_error: Seq<char>,
    cleanup_error: Option<Seq<char>>,
    forced: Option<Seq<char>>,
) -> Seq<char> {
    match (cleanup_error, forced) {
        (None, _) => in_context("failed to wait for the server process"@, wait_error),
        (Some(cleanup), None) => in_context(
            in_context("cleanup failed after server process wait error"@, cleanup),
            wait_error,
        ),
        (Some(cleanup), Some(force)) => in_context(
            in_context(
                in_context("cleanup failed after server process wait error"@, cleanup)
                    + "; forced cleanup also failed"@,
                force,
            ),
            wait_error,
        ),
    }
}

/// The text of a failed wait for the process and of what cleaning up after it brought.
fn reap_after_wait_error_text(
    wait_error: &str,
    cleanup_error: &Option<String>,
    forced: &Option<String>,
) -> (text: String)
    ensures
        text@ == wait_error_text(wait_error@, maybe_text(*cleanup_error), maybe_text(*forced)),
{
    match cleanup_error {
        None => with_context("failed to wait for the server process", wait_error),
        Some(cleanup) => {
            let circumstance = with_context(
                "cleanup failed after server process wait error",
                cleanup.as_str(),
            );
            match forced {
                None => with_context(circumstance.as_str(), wait_error),
                Some(force) => {
                    let mut both = circumstance;
                    both.append("; forced cleanup also failed");
                    let circumstance = with_context(both.as_str(), force.as_str());
                    with_context(circumstance.as_str(), wait_error)
                },
            }
        },
    }
}

/// Concludes the cleanup after a process could not be waited for: a server that is gone counts
/// as stopped. The text says what happened.
pub fn reap_after_wait_error(
    control: &mut SupervisorControl,
    wait_error: &str,
    cleanup_error: &Option<String>,
    forced: &Option<String>,
    now: Nanos,
) -> (text: String)
    requires
        old(control).unencumbered(),
        old(control).valid(),
    ensures
        final(control).valid(),
        final(control).lifecycle.may_follow(old(control).lifecycle),
        *final(control) == (if cleanup_error is None {
            old(control).phase_set(ServerPhase::Stopped, now)
        } else {
            *old(control)
        }),
        text@ == wait_error_text(wait_error@, maybe_text(*cleanup_error), maybe_text(*forced)),
{
    if cleanup_error.is_none() {
        control.set_phase(ServerPhase::Stopped, now);
    }
    reap_after_wait_error_text(wait_error, cleanup_error, forced)
}

/// Takes an event while a server is cleaned up that did not start properly. Says whether a
/// shutdown has come.
pub fn failed_cleanup_event(
    control: &mut SupervisorControl,
    shutdown_received: bool,
    event: SupervisorEvent,
) -> (shutdown: bool)
    ensures
        shutdown == (shutdown_received || event == SupervisorEvent::Shutdown || event
            == SupervisorEvent::WakeClosed),
        *final(control) == (match event {
            SupervisorEvent::Wake(request) => SupervisorControl {
                launch_demand: old(control).launch_demand || request.retries(
                    old(control).lifecycle,
                ),
                ..*old(control)
            },
            _ => *old(control),
        }),
{
    match event {
        SupervisorEvent::Shutdown | SupervisorEvent::WakeClosed => true,
        SupervisorEvent::Wake(request) => {
            if request.requests_retry(control.lifecycle) {
                control.launch_demand = true;
            }
            shutdown_received
        },
        SupervisorEvent::Mutation(_) | SupervisorEvent::Deadline => shutdown_received,
    }
}

/// Concludes the stop of a server that did not start properly: the cooldown begins, unless a
/// shutdown has come.
pub fn finish_failed_cleanup(
    control: &mut SupervisorControl,
    shutdown: bool,
    retry_delay: Nanos,
    now: Nanos,
) -> (outcome: CycleOutcome)
    requires
        old(control).lifecycle.phase == ServerPhase::Stopping,
        old(control).valid(),
        !shutdown ==> old(control).stopping_reason == Some(StoppingReason::FailureCleanup),
        now + retry_delay <= Nanos::MAX,
    ensures
        final(control).valid(),
        final(control).lifecycle.may_follow(old(control).lifecycle),
        outcome == (if shutdown {
            CycleOutcome::Shutdown
        } else {
            CycleOutcome::Failed {
                retry_at: (now + retry_delay) as Nanos,
                retry_pending: old(control).launch_demand,
            }
        }),
        *final(control) == (if shutdown {
            *old(control)
        } else {
            SupervisorControl {
                lifecycle: old(control).lifecycle.cooling_down(now, retry_delay as int),
                ..*old(control)
            }
        }),
{
    if shutdown {
        return CycleOutcome::Shutdown;
    }
    let retry_at: Nanos = control.finish_failure_cleanup(retry_delay, now);
    CycleOutcome::Failed { retry_at, retry_pending: control.launch_demand }
}

/// Concludes the stop of a server that did not start properly when cleaning up failed.
pub fn stop_failed_server(control: &mut SupervisorControl, error: String, forced: &Option<String>) -> (text:
    String)
    ensures
        *final(control) == (SupervisorControl { fatal_raised: true, ..*old(control) }),
        text@ == forced_text(
            "forced cleanup also failed after failure cleanup"@,
            maybe_text(*forced),
            error@,
        ),
{
    control.fatal_raised = true;
    with_forced_cleanup("forced cleanup also failed after failure cleanup", forced, error)
}

/// The cleanup of a server that was stopped for idleness.
#[derive(Clone, Copy, Debug, PartialEq, Eq, Structural)]
pub struct IdleCleanup {
    pub restart: bool,
    pub shutdown_received: bool,
}

impl IdleCleanup {
    /// The cleanup at its beginning.
    pub fn new() -> (state: IdleCleanup)
        ensures
            state == (IdleCleanup { restart: false, shutdown_received: false }),
    {
        IdleCleanup { restart: false, shutdown_received: false }
    }

    /// Takes an event. A login that saw this stop asks for a start after it; a request of the
    /// operator settles the question anew.
    pub fn wait_for_idle_cleanup(&mut self, control: &mut SupervisorControl, event: SupervisorEvent)
        ensures
            *final(self) == (match event {
                SupervisorEvent::Shutdown | SupervisorEvent::WakeClosed => IdleCleanup {
                    shutdown_received: true,
                    ..*old(self)
                },
                SupervisorEvent::Mutation(_) => IdleCleanup {
                    restart: old(control).launch_demand,
                    ..*old(self)
                },
                SupervisorEvent::Wake(request) => IdleCleanup {
                    restart: old(self).restart || request.restarts(old(control).lifecycle),
                    ..*old(self)
                },
                SupervisorEvent::Deadline => *old(self),
            }),
            *final(control) == (match event {
                SupervisorEvent::Wake(request) => restart_latched(*old(control), request),
                _ => *old(control),
            }),
    {
        match event {
            SupervisorEvent::Shutdown | SupervisorEvent::WakeClosed => {
                self.shutdown_received = true;
            },
            SupervisorEvent::Mutation(_) => {
                self.restart = control.launch_demand;
            },
            SupervisorEvent::Wake(request) => {
                if request.requests_restart(control.lifecycle) {
                    self.restart = true;
                    control.launch_demand = true;
                }
            },
            SupervisorEvent::Deadline => {},
        }
    }

    /// Takes a login that was still waiting when the process was gone.
    pub fn late_wake(&mut self, control: &SupervisorControl, request: WakeRequest)
        ensures
            *final(self) == (IdleCleanup {
                restart: old(self).restart || request.restarts(control.lifecycle),
                ..*old(self)
            }),
    {
        if request.requests_restart(control.lifecycle) {
            self.restart = true;
        }
    }

    /// Concludes the stop once the process is gone. Whatever was asked for meanwhile is met by a
    /// start, unless a shutdown is due.
    pub fn stop_committed_idle_server(
        &self,
        control: &mut SupervisorControl,
        shutdown_due: bool,
        now: Nanos,
    ) -> (outcome: CycleOutcome)
        requires
            old(control).lifecycle.phase == ServerPhase::Stopping,
            old(control).valid(),
        ensures
            final(control).valid(),
            final(control).lifecycle.may_follow(old(control).lifecycle),
            outcome == (if shutdown_due {
                CycleOutcome::Shutdown
            } else if self.restart || old(control).launch_demand {
                CycleOutcome::Restart
            } else {
                CycleOutcome::Stopped
            }),
            *final(control) == (if outcome == CycleOutcome::Restart {
                SupervisorControl {
                    launch_demand: false,
                    ..old(control).phase_set(ServerPhase::Stopped, now)
                }
            } else {
                *old(control)
            }),
    {
        if shutdown_due {
            CycleOutcome::Shutdown
        } else if self.restart || control.launch_demand {
            control.launch_demand = false;
            control.publish_reaped_for_restart(now);
            CycleOutcome::Restart
        } else {
            CycleOutcome::Stopped
        }
    }
}

/// Concludes the stop of an idle server when cleaning up failed.
pub fn idle_cleanup_failed(control: &mut SupervisorControl, error: String, forced: &Option<String>) -> (text:
    String)
    ensures
        *final(control) == (SupervisorControl { fatal_raised: true, ..*old(control) }),
        text@ == forced_text(
            "forced cleanup also failed after automatic idle cleanup"@,
            maybe_text(*forced),
            error@,
        ),
{
    control.fatal_raised = true;
    with_forced_cleanup("forced cleanup also failed after automatic idle cleanup", forced, error)
}

/// A login that saw this stop asks for a start after it; a demand that is there stays, and
/// nothing else changes.
pub proof fn logins_during_a_stop_ask_for_a_start(control: SupervisorControl, request: WakeRequest)
    ensures
        restart_latched(control, request).launch_demand <==> control.launch_demand
            || (control.lifecycle.phase == ServerPhase::Stopping && request.observed
            == control.lifecycle),
        restart_latched(control, request).lifecycle == control.lifecycle,
        restart_latched(control, request).stopping_reason == control.stopping_reason,
{
}

/// Bringing the proxy to rest ends well only with the backend in hand: a backend that was free
/// from the start is held once the runtime confirmed its rest, another one has to be waited for.
/// Time that is up, an answer that failed and a failure of the supervisor end it badly.
pub proof fn rest_takes_the_backend(
    state: Quiescence,
    control: SupervisorControl,
    event: QuiescenceEvent,
)
    ensures
        event == QuiescenceEvent::Acknowledged && !state.acquiring ==> state.event_step(
            control,
            event,
        ) == (if state.acquired {
            QuiescenceStep::Done
        } else {
            QuiescenceStep::Acquire
        }) && state.event_state(event).acquiring == !state.acquired,
        event == QuiescenceEvent::Acquired && state.acquiring ==> state.event_step(control, event)
            == QuiescenceStep::Done,
        event == QuiescenceEvent::Deadline ==> state.event_step(control, event) is Failed,
        event == QuiescenceEvent::AcknowledgementFailed && !state.acquiring ==> state.event_step(
            control,
            event,
        ) is Failed,
        event == QuiescenceEvent::AcknowledgementClosed && !state.acquiring
            && !state.shutdown_received ==> state.event_step(control, event) is Failed,
        event == QuiescenceEvent::DrainClosed && !state.acquiring ==> state.event_step(
            control,
            event,
        ) is Failed,
        event == QuiescenceEvent::MutationHandled ==> (state.event_step(control, event) is Failed
            <==> control.fatal_error is Some),
        event is Wake || event is Shutdown || event is WakeClosed || event is ChildEnded || event
            is DrainChanged ==> state.event_step(control, event) == QuiescenceStep::Wait,
        event matches QuiescenceEvent::ChildEnded(end) ==> state.event_state(event).child_end
            == Some(end),
        !(event is ChildEnded) ==> state.event_state(event).child_end == state.child_end,
        state.event_state(event).shutdown_received <==> state.shutdown_received || event
            == QuiescenceEvent::Shutdown || event == QuiescenceEvent::WakeClosed,
        state.event_state(event).acquired == state.acquired,
{
}

/// A shutdown that finds the runtimes drained needs no answer of theirs.
pub proof fn drained_runtimes_are_at_rest(state: Quiescence, runtime_drained: bool)
    ensures
        state.look_step(runtime_drained) == QuiescenceStep::Done <==> state.shutdown_received
            && runtime_drained && state.acquired,
        state.look_step(runtime_drained) == QuiescenceStep::Acquire <==> state.shutdown_received
            && runtime_drained && !state.acquired,
        state.look_step(runtime_drained) == QuiescenceStep::Wait <==> !state.shutdown_received
            || !runtime_drained,
        state.rested().acquiring <==> !state.acquired,
        state.rested().acquired == state.acquired,
        state.rested().child_end == state.child_end,
{
}

/// Every failure on the way to the end of a process is told, the last one first.
pub proof fn failures_of_cleanups_are_told(
    context: Seq<char>,
    cause: Seq<char>,
    cleanup: Seq<char>,
    force: Seq<char>,
)
    ensures
        forced_text(context, None, cause) == cause,
        forced_text(context, Some(cleanup), cause) == context + ": "@ + cleanup + (": "@ + cause),
        wait_error_text(cause, None, None) == "failed to wait for the server process"@ + ": "@
            + cause,
        wait_error_text(cause, Some(cleanup), None)
            == "cleanup failed after server process wait error"@ + ": "@ + cleanup + (": "@
            + cause),
        wait_error_text(cause, Some(cleanup), Some(force))
            == "cleanup failed after server process wait error"@ + ": "@ + cleanup
            + "; forced cleanup also failed"@ + ": "@ + force + (": "@ + cause),
{
    assert(forced_text(context, Some(cleanup), cause) =~= context + ": "@ + cleanup + (": "@
        + cause));
    assert(wait_error_text(cause, Some(cleanup), None)
        =~= "cleanup failed after server process wait error"@ + ": "@ + cleanup + (": "@ + cause));
    assert(wait_error_text(cause, Some(cleanup), Some(force))
        =~= "cleanup failed after server process wait error"@ + ": "@ + cleanup
        + "; forced cleanup also failed"@ + ": "@ + force + (": "@ + cause));
}

/// A rest that failed tells its cause where there is one.
pub proof fn failed_rests_tell_the_cause(cause: Seq<char>)
    ensures
        QuiescenceError::AcknowledgementFailed.text(cause) == cause,
        QuiescenceError::AcknowledgementClosed.text(cause)
            == "runtime quiescence acknowledgement channel closed"@ + ": "@ + cause,
        QuiescenceError::DrainClosed.text(cause)
            == "runtime-drain indication closed during daemon shutdown"@ + ": "@ + cause,
        uncertain_drain(cause)
            == "runtime drain or backend-use exclusivity remained uncertain during fatal cleanup"@
            + ": "@ + cause,
{
}

/// An answer is waited for until its channel is found closed during a shutdown, and only then no
/// more.
pub proof fn answers_are_waited_for(state: Quiescence, event: QuiescenceEvent)
    ensures
        state.event_state(event).acknowledgement_open <==> state.acknowledgement_open && !(event
            == QuiescenceEvent::AcknowledgementClosed && state.shutdown_received),
        event != QuiescenceEvent::Acknowledged ==> state.event_state(event).acquiring
            == state.acquiring,
{
}

} // verus!
