//! Serving one client: proxying it to the backend, or answering in place of a sleeping server.

use vstd::prelude::*;

use crate::backend_use::{ActivityState, BackendCycle, BackendUseCoordinator};
use crate::minecraft::{ClientRequest, HandshakeIntent, LoginIntent};
use crate::supervisor::lifecycle::{LifecycleState, ServerPhase, WakeLatch, WakeRequest};

verus! {

/// Where a client is led.
#[derive(Clone, Copy, Debug, PartialEq, Eq, Structural)]
pub enum Route {
    /// To the backend of the cycle that this daemon owns.
    ProxyOwned(BackendCycle),
    /// To a backend that somebody else runs.
    ProxyExternal,
    /// Nowhere: it is answered in place of the server.
    AnswerAsleep,
}

/// Where a client is led that saw this lifecycle.
pub fn route_connection(lifecycle: LifecycleState) -> (route: Route)
    ensures
        route == (match lifecycle.phase {
            ServerPhase::Running => Route::ProxyOwned(BackendCycle(lifecycle.launch_generation)),
            ServerPhase::External => Route::ProxyExternal,
            _ => Route::AnswerAsleep,
        }),
{
    if let Some(cycle) = lifecycle.owned_running_cycle() {
        return Route::ProxyOwned(cycle);
    }
    if lifecycle.phase == ServerPhase::External {
        return Route::ProxyExternal;
    }
    Route::AnswerAsleep
}

/// How a client of a sleeping server is answered.
#[derive(Clone, Copy, Debug, PartialEq, Eq, Structural)]
pub enum SleepingAnswer {
    /// With the status of the sleeping server.
    Status,
    /// That its release does not fit.
    Incompatible,
    /// That nobody knows who owns the backend.
    Conflict,
    /// That the server is starting.
    Startup,
}

/// That a login in this phase asks for the server. While it is starting, it need not.
pub open spec fn login_wakes(phase: ServerPhase) -> bool {
    phase == ServerPhase::Reconciling || phase == ServerPhase::Stopped || phase
        == ServerPhase::Stopping || phase == ServerPhase::Cooldown || phase
        == ServerPhase::Conflict
}

/// The answer to a login in a phase.
pub open spec fn login_answer(phase: ServerPhase) -> SleepingAnswer {
    if phase == ServerPhase::Conflict {
        SleepingAnswer::Conflict
    } else {
        SleepingAnswer::Startup
    }
}

/// The latch after a client was served that saw this lifecycle.
pub open spec fn woken(latch: WakeLatch, lifecycle: LifecycleState, request: ClientRequest) -> WakeLatch {
    if request is Login && login_wakes(lifecycle.phase) && !latch.closed {
        WakeLatch {
            pending: latch.offered(WakeRequest { observed: lifecycle }),
            closed: false,
        }
    } else {
        latch
    }
}

/// How a client of a sleeping server is answered that saw this lifecycle. A login leaves its
/// request with the supervisor; if the supervisor takes none any more, the client is not
/// answered.
pub fn handle_sampled_connection(
    lifecycle: LifecycleState,
    request: ClientRequest,
    wake_requests: &mut WakeLatch,
) -> (result: Result<SleepingAnswer, String>)
    requires
        old(wake_requests).valid(),
    ensures
        final(wake_requests).valid(),
        *final(wake_requests) == woken(*old(wake_requests), lifecycle, request),
        match request {
            ClientRequest::Status => result == Ok::<SleepingAnswer, String>(
                SleepingAnswer::Status,
            ),
            ClientRequest::UnsupportedProtocol { protocol_version } => result == Ok::<
                SleepingAnswer,
                String,
            >(SleepingAnswer::Incompatible),
            ClientRequest::Login { intent } => if login_wakes(lifecycle.phase) && old(
                wake_requests,
            ).closed {
                result matches Err(text) && text@ == "server supervisor wake channel is closed"@
            } else {
                result == Ok::<SleepingAnswer, String>(login_answer(lifecycle.phase))
            },
        },
{
    match request {
        ClientRequest::Status => Ok(SleepingAnswer::Status),
        ClientRequest::UnsupportedProtocol { protocol_version: _ } => Ok(
            SleepingAnswer::Incompatible,
        ),
        ClientRequest::Login { intent: _ } => {
            let phase = lifecycle.phase();
            let wakes = match phase {
                ServerPhase::Reconciling
                | ServerPhase::Stopped
                | ServerPhase::Stopping
                | ServerPhase::Cooldown
                | ServerPhase::Conflict => true,
                _ => false,
            };
            if wakes {
                if wake_requests.enqueue(WakeRequest::observed(lifecycle)).is_err() {
                    return Err("server supervisor wake channel is closed".to_owned());
                }
            }
            if phase == ServerPhase::Conflict {
                Ok(SleepingAnswer::Conflict)
            } else {
                Ok(SleepingAnswer::Startup)
            }
        },
    }
}

/// What is wrong with opening a proxy connection in a cycle, if anything is: the supervisor is
/// gone, or the cycle is over.
pub open spec fn cycle_fault(
    authority_alive: bool,
    lifecycle: LifecycleState,
    cycle: BackendCycle,
) -> Option<Seq<char>> {
    if !authority_alive {
        Some("server lifecycle authority stopped while opening a proxy connection"@)
    } else if lifecycle.running_cycle() != Some(cycle) {
        Some("owned backend cycle changed while opening a proxy connection"@)
    } else {
        None
    }
}

/// Checks that a cycle is still running while a proxy connection is opened in it.
pub fn ensure_current_owned_cycle(
    authority_alive: bool,
    lifecycle: LifecycleState,
    cycle: BackendCycle,
) -> (result: Result<(), String>)
    ensures
        match cycle_fault(authority_alive, lifecycle, cycle) {
            None => result is Ok,
            Some(text) => result matches Err(error) && error@ == text,
        },
{
    if !authority_alive {
        return Err(
            "server lifecycle authority stopped while opening a proxy connection".to_owned(),
        );
    }
    match lifecycle.owned_running_cycle() {
        Some(current) => {
            if current == cycle {
                Ok(())
            } else {
                Err("owned backend cycle changed while opening a proxy connection".to_owned())
            }
        },
        None => Err("owned backend cycle changed while opening a proxy connection".to_owned()),
    }
}

/// That a client with this intent counts as somebody who uses the server.
pub open spec fn counts_as_use(intent: HandshakeIntent) -> bool {
    intent == HandshakeIntent::Login || intent == HandshakeIntent::Transfer
}

/// Counts a proxied client among the users of the server, if it logs in. Says whether it counts.
pub fn establish_owned_proxy_activity(
    authority_alive: bool,
    lifecycle: LifecycleState,
    cycle: BackendCycle,
    intent: HandshakeIntent,
    backend_use: &mut BackendUseCoordinator,
) -> (result: Result<bool, String>)
    requires
        old(backend_use).counts(cycle) ==> old(backend_use).sessions() < usize::MAX,
    ensures
        match cycle_fault(authority_alive, lifecycle, cycle) {
            Some(text) => {
                &&& result matches Err(error) && error@ == text
                &&& *final(backend_use) == *old(backend_use)
            },
            None => if !counts_as_use(intent) {
                &&& result == Ok::<bool, String>(false)
                &&& *final(backend_use) == *old(backend_use)
            } else if old(backend_use).counts(cycle) {
                &&& result == Ok::<bool, String>(true)
                &&& *final(backend_use) == (BackendUseCoordinator {
                    activity: Some(
                        ActivityState {
                            active_login_transfer_sessions: (old(backend_use).sessions() + 1)
                                as usize,
                            ..old(backend_use).activity->0
                        },
                    ),
                })
            } else {
                &&& result matches Err(error) && error@
                    == "backend activity cycle changed before proxy establishment"@
                &&& *final(backend_use) == *old(backend_use)
            },
        },
{
    if let Err(text) = ensure_current_owned_cycle(authority_alive, lifecycle, cycle) {
        return Err(text);
    }
    match intent {
        HandshakeIntent::Login | HandshakeIntent::Transfer => {
            if backend_use.establish_login_transfer_session(cycle) {
                Ok(true)
            } else {
                Err("backend activity cycle changed before proxy establishment".to_owned())
            }
        },
        HandshakeIntent::Status | HandshakeIntent::Unknown(_) => Ok(false),
    }
}

/// Only logins ask for the server, not requests for its status, and only in a phase in which
/// none is running or being started.
pub proof fn only_logins_wake(latch: WakeLatch, lifecycle: LifecycleState, request: ClientRequest)
    requires
        woken(latch, lifecycle, request) != latch,
    ensures
        request is Login,
        lifecycle.phase != ServerPhase::Running,
        lifecycle.phase != ServerPhase::External,
        lifecycle.phase != ServerPhase::Starting,
{
}

/// A login to a stopped server leaves a request that starts it, or finds one that is at least as
/// fresh.
pub proof fn logins_wake_stopped_servers(
    latch: WakeLatch,
    lifecycle: LifecycleState,
    intent: LoginIntent,
)
    requires
        !latch.closed,
        lifecycle.phase == ServerPhase::Stopped,
    ensures
        ({
            let asked = WakeRequest { observed: lifecycle };
            let left = woken(latch, lifecycle, ClientRequest::Login { intent }).pending;
            &&& asked.starts(lifecycle)
            &&& left == Some(asked) || left == latch.pending && left is Some && !asked.key().newer(
                (left->0).key(),
            )
        }),
{
}

/// A login asks for the server in every phase in which none runs or is being started, and the
/// client is told that it starts, or of the conflict.
pub proof fn logins_ask_for_what_is_down(phase: ServerPhase)
    ensures
        login_wakes(phase) <==> phase != ServerPhase::Starting && phase != ServerPhase::Running
            && phase != ServerPhase::External,
        login_answer(phase) == SleepingAnswer::Conflict <==> phase == ServerPhase::Conflict,
        login_answer(phase) == SleepingAnswer::Startup <==> phase != ServerPhase::Conflict,
{
}

/// A login leaves what it saw with the supervisor, unless something at least as fresh is there.
pub proof fn logins_leave_what_they_saw(
    latch: WakeLatch,
    lifecycle: LifecycleState,
    intent: LoginIntent,
)
    requires
        !latch.closed,
        lifecycle.phase != ServerPhase::Starting,
        lifecycle.phase != ServerPhase::Running,
        lifecycle.phase != ServerPhase::External,
    ensures
        ({
            let left = woken(latch, lifecycle, ClientRequest::Login { intent });
            &&& !left.closed
            &&& latch.pending is None ==> left.pending == Some(WakeRequest { observed: lifecycle })
            &&& left.pending is Some
            &&& left.pending == latch.pending || left.pending == Some(
                WakeRequest { observed: lifecycle },
            )
        }),
{
}

/// A proxy connection is opened only in the cycle that runs, under a supervisor that is there;
/// logins and transfers count as use, and nothing else does.
pub proof fn sessions_belong_to_the_running_cycle(
    authority_alive: bool,
    lifecycle: LifecycleState,
    cycle: BackendCycle,
    intent: HandshakeIntent,
)
    ensures
        cycle_fault(authority_alive, lifecycle, cycle) is None <==> authority_alive
            && lifecycle.phase == ServerPhase::Running && lifecycle.launch_generation == cycle.0,
        counts_as_use(intent) <==> intent == HandshakeIntent::Login || intent
            == HandshakeIntent::Transfer,
{
}

} // verus!
