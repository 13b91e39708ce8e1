//! Preparing and activating the runtime of a server.

use vstd::prelude::*;

use crate::backend_use::BackendUseCoordinator;
use crate::supervisor::lifecycle::{
    LifecycleState, Nanos, ReconciliationEvidence, ServerPhase, WakeLatch,
};

use super::run::ServerRuntime;

verus! {

/// What the supervisor gets on top of its own timeouts to end.
pub const SUPERVISOR_SHUTDOWN_MARGIN: Nanos = 10_000_000_000;

/// The longest duration that can be told: the seconds fit into 64 bits.
pub const LONGEST_DURATION: Nanos = 18_446_744_073_709_551_615_999_999_999;

/// How long a supervisor may take to end: the time for letting go of clients, the time for the
/// stop command, the time for the process to exit, and a margin.
pub open spec fn wait_limit(command_timeout: Nanos, shutdown_timeout: Nanos) -> int {
    command_timeout + command_timeout + shutdown_timeout + SUPERVISOR_SHUTDOWN_MARGIN
}

/// How long a supervisor may take to end.
pub fn supervisor_shutdown_wait_limit(command_timeout: Nanos, shutdown_timeout: Nanos) -> (result:
    Result<Nanos, String>)
    requires
        command_timeout <= LONGEST_DURATION,
        shutdown_timeout <= LONGEST_DURATION,
    ensures
        if wait_limit(command_timeout, shutdown_timeout) <= LONGEST_DURATION {
            result == Ok::<Nanos, String>(wait_limit(command_timeout, shutdown_timeout) as Nanos)
        } else {
            result matches Err(text) && text@
                == "twice command_timeout_seconds plus shutdown_timeout_seconds and the supervisor shutdown margin exceed the supported duration; reduce one of the timeout settings"@
        },
        result matches Ok(limit) ==> limit == 2 * command_timeout + shutdown_timeout
            + 10_000_000_000,
{
    let limit: Nanos = command_timeout + command_timeout + shutdown_timeout
        + SUPERVISOR_SHUTDOWN_MARGIN;
    if limit <= LONGEST_DURATION {
        Ok(limit)
    } else {
        Err(
            "twice command_timeout_seconds plus shutdown_timeout_seconds and the supervisor shutdown margin exceed the supported duration; reduce one of the timeout settings".to_owned(),
        )
    }
}

/// Everything that the tasks of one server share, as it is at the beginning.
pub struct ActivatedServerRuntime {
    pub lifecycle: LifecycleState,
    pub wake_latch: WakeLatch,
    pub backend_use: BackendUseCoordinator,
    pub runtime: ServerRuntime,
}

impl ActivatedServerRuntime {
    /// A server whose supervisor is about to look at its backend; nobody has asked for it and
    /// nobody uses it.
    pub fn activate(now: Nanos) -> (activated: ActivatedServerRuntime)
        ensures
            activated.lifecycle == (LifecycleState {
                phase: ServerPhase::Reconciling,
                command_revision: 0,
                launch_generation: 0,
                failure: None,
                failure_streak: 0,
                phase_started_at: now,
                retry_at: None,
                reconciliation_evidence: ReconciliationEvidence::Absent,
            }),
            activated.lifecycle.valid(),
            activated.wake_latch == (WakeLatch { pending: None, closed: false }),
            activated.wake_latch.valid(),
            activated.backend_use == (BackendUseCoordinator { activity: None }),
            !activated.runtime.quiescence_closed,
    {
        ActivatedServerRuntime {
            lifecycle: LifecycleState::reconciling(now),
            wake_latch: WakeLatch::new(),
            backend_use: BackendUseCoordinator::new(),
            runtime: ServerRuntime::new(),
        }
    }
}

/// A supervisor has the time for commands twice, the time for the process to exit and ten seconds
/// more, and each of them counts.
pub proof fn supervisors_have_time_to_end(command_timeout: Nanos, shutdown_timeout: Nanos)
    ensures
        wait_limit(command_timeout, shutdown_timeout) == 2 * command_timeout + shutdown_timeout
            + 10_000_000_000,
{
}

} // verus!
