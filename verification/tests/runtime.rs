//! The runtime of a server: its loop, its clients, its connections to the backend, its process.

use mcservernap::backend_use::{BackendCycle, BackendUseCoordinator};
use mcservernap::config::hosts::IpAddress;
use mcservernap::endpoint::Endpoint;
use mcservernap::minecraft::request::{ClientRequest, HandshakeIntent, LoginIntent};
use mcservernap::process::{
    console_stop, kills_directly, process_group, terminate, terminate_direct_after_tree_failure,
    DirectTermination, ProcessQuery, TerminateStep,
};
use mcservernap::runtime::activation::{
    supervisor_shutdown_wait_limit, ActivatedServerRuntime, LONGEST_DURATION,
};
use mcservernap::runtime::connect::{
    connect_backend_with, unique_addresses, BackendAddress, BackendConnect,
    BackendConnectFailure, ConnectStep, Resolution,
};
use mcservernap::runtime::run::{
    acknowledged, await_supervisor_shutdown, combine_runtime_errors, finish_fatal, finish_run,
    finish_shutdown, record_client_panic, ClientEnd, ConnectionPermit, Drain, DrainConclusion,
    DrainEvent, FinishStep, RunExit, RuntimeEvent, RuntimeStep, ServerRuntime, SupervisorEnd,
    SupervisorWait,
};
use mcservernap::runtime::serving::{
    ensure_current_owned_cycle, establish_owned_proxy_activity, handle_sampled_connection,
    route_connection, Route, SleepingAnswer,
};
use mcservernap::supervisor::lifecycle::{
    LifecycleState, ReconciliationEvidence, ServerPhase, WakeLatch, WakeRequest,
};

const MILLISECOND: u128 = 1_000_000;

fn in_phase(phase: ServerPhase) -> LifecycleState {
    LifecycleState {
        phase,
        launch_generation: 3,
        reconciliation_evidence: match phase {
            ServerPhase::External => ReconciliationEvidence::Positive,
            ServerPhase::Conflict => ReconciliationEvidence::Inconclusive,
            _ => ReconciliationEvidence::Absent,
        },
        ..LifecycleState::reconciling(0)
    }
}

fn address(last: u32) -> BackendAddress {
    BackendAddress {
        address: IpAddress::V4(last),
        port: 25_566,
        flowinfo: 0,
        scope_id: 0,
    }
}

#[test]
fn activation_begins_with_a_reconciliation() {
    let activated = ActivatedServerRuntime::activate(7);
    assert_eq!(activated.lifecycle, LifecycleState::reconciling(7));
    assert!(activated.wake_latch.pending.is_none());
    assert!(activated.backend_use.activity.is_none());
    assert!(!activated.runtime.quiescence_closed);
}

#[test]
fn supervisors_get_a_margin_to_end() {
    assert_eq!(
        supervisor_shutdown_wait_limit(10_000_000_000, 30_000_000_000),
        Ok(60_000_000_000)
    );
    assert_eq!(
        supervisor_shutdown_wait_limit(LONGEST_DURATION, 1).unwrap_err(),
        "twice command_timeout_seconds plus shutdown_timeout_seconds and the supervisor shutdown \
         margin exceed the supported duration; reduce one of the timeout settings"
    );
    assert!(supervisor_shutdown_wait_limit(0, LONGEST_DURATION - 10_000_000_000).is_ok());
    assert!(supervisor_shutdown_wait_limit(0, LONGEST_DURATION - 9_999_999_999).is_err());
}

#[test]
fn events_lead_to_their_steps() {
    let mut runtime = ServerRuntime::new();
    let mut step = |event| runtime.run_until(event);
    assert!(matches!(
        step(RuntimeEvent::Accepted(ConnectionPermit::Granted)).step,
        RuntimeStep::ServeClient
    ));
    assert!(matches!(
        step(RuntimeEvent::Accepted(ConnectionPermit::NoPermits)).step,
        RuntimeStep::DropClient
    ));
    assert!(matches!(
        step(RuntimeEvent::Accepted(ConnectionPermit::Closed)).step,
        RuntimeStep::Exit(RunExit::Shutdown(Err(text)))
            if text == "connection limiter unexpectedly closed"
    ));
    assert!(matches!(
        step(RuntimeEvent::AcceptFailed).step,
        RuntimeStep::PauseAccepting
    ));
    assert!(matches!(
        step(RuntimeEvent::QuiescenceRequested).step,
        RuntimeStep::Drain
    ));
    assert!(matches!(
        step(RuntimeEvent::FatalChanged {
            open: true,
            raised: true
        })
        .step,
        RuntimeStep::Exit(RunExit::Fatal)
    ));
    assert!(matches!(
        step(RuntimeEvent::FatalChanged {
            open: false,
            raised: true
        })
        .step,
        RuntimeStep::Continue
    ));
    assert!(matches!(
        step(RuntimeEvent::ShutdownRequested(Ok(()))).step,
        RuntimeStep::Exit(RunExit::Shutdown(Ok(())))
    ));
    let panicked = step(RuntimeEvent::ClientEnded(ClientEnd::Panicked(
        "oops".to_owned(),
    )));
    assert!(panicked.raise_fatal);
    assert!(matches!(
        panicked.step,
        RuntimeStep::Exit(RunExit::ClientTaskPanic(text)) if text == "oops"
    ));
    let finished = step(RuntimeEvent::ClientEnded(ClientEnd::Finished));
    assert!(!finished.raise_fatal);
    assert!(matches!(finished.step, RuntimeStep::Continue));
    assert!(matches!(
        step(RuntimeEvent::QuiescenceClosed).step,
        RuntimeStep::Continue
    ));
    assert!(runtime.quiescence_closed);
}

#[test]
fn undisturbed_drains_confirm_rest() {
    let mut drain = Drain::new();
    assert!(!drain.event(DrainEvent::ClientEnded(ClientEnd::Cancelled(
        "aborted".to_owned()
    ))));
    assert!(drain.waits_for_shutdown());
    assert!(!drain.event(DrainEvent::ShutdownRequested(Ok(()))));
    assert!(!drain.waits_for_shutdown());
    let DrainConclusion::Acknowledge { shutdown } = drain.conclude() else {
        panic!("an undisturbed drain must be acknowledged");
    };
    let end = acknowledged(true, false, shutdown);
    assert!(!end.raise_fatal);
    assert!(matches!(end.exit, Some(RunExit::Shutdown(Ok(())))));
    let end = acknowledged(false, false, None);
    assert!(end.raise_fatal);
    assert!(matches!(
        end.exit,
        Some(RunExit::QuiescenceFailure(text))
            if text == "runtime quiescence acknowledgement receiver disappeared"
    ));
    let end = acknowledged(false, true, None);
    assert!(!end.raise_fatal);
    assert!(end.exit.is_none());
}

#[test]
fn interrupted_drains_keep_the_first_interruption() {
    let mut drain = Drain::new();
    assert!(drain.event(DrainEvent::AcknowledgementClosed));
    assert!(drain.is_interrupted());
    assert!(!drain.event(DrainEvent::FatalChanged {
        open: true,
        raised: true
    }));
    assert!(matches!(
        drain.conclude(),
        DrainConclusion::Exit(RunExit::QuiescenceFailure(text))
            if text == "runtime quiescence acknowledgement receiver disappeared"
    ));
    let mut drain = Drain::new();
    assert!(!drain.event(DrainEvent::SupervisorEnded(SupervisorEnd::Finished)));
    assert!(matches!(
        drain.conclude(),
        DrainConclusion::Exit(RunExit::Supervisor(SupervisorEnd::Finished))
    ));
    let mut drain = Drain::new();
    assert!(drain.event(DrainEvent::FatalChanged {
        open: false,
        raised: false
    }));
    assert!(matches!(
        drain.conclude(),
        DrainConclusion::Exit(RunExit::QuiescenceFailure(text))
            if text == "fatal runtime signal closed during quiescence"
    ));
}

#[test]
fn panics_during_drains_count_most() {
    let mut drain = Drain::new();
    assert!(!drain.event(DrainEvent::FatalChanged {
        open: true,
        raised: true
    }));
    let panicked = |text: &str| DrainEvent::ClientEnded(ClientEnd::Panicked(text.to_owned()));
    assert!(drain.event(panicked("first")));
    assert!(!drain.event(panicked("second")));
    assert!(matches!(
        drain.conclude(),
        DrainConclusion::Fail(text)
            if text == "client task panicked during runtime quiescence: first"
    ));
    let mut panic = None;
    assert!(!record_client_panic(
        ClientEnd::Cancelled("aborted".to_owned()),
        &mut panic,
        "client task panicked"
    ));
    assert_eq!(panic, None);
}

#[test]
fn runtimes_succeed_only_after_an_orderly_shutdown() {
    let FinishStep::StopSupervisor(result) = finish_run(RunExit::Shutdown(Ok(())), None) else {
        panic!("a shutdown must stop the supervisor");
    };
    assert_eq!(
        finish_shutdown(result, SupervisorWait::Finished(Ok(()))),
        Ok(())
    );
    let FinishStep::StopSupervisor(result) =
        finish_run(RunExit::Shutdown(Ok(())), Some("panic".to_owned()))
    else {
        panic!("a shutdown must stop the supervisor");
    };
    assert_eq!(
        finish_shutdown(
            result,
            SupervisorWait::TimedOut {
                limit: "60s".to_owned()
            }
        ),
        Err(
            "runtime cleanup also failed: server supervisor did not stop within 60s: panic"
                .to_owned()
        )
    );
    assert!(matches!(
        finish_run(RunExit::Supervisor(SupervisorEnd::Finished), None),
        FinishStep::Done(Err(text)) if text == "server supervisor stopped unexpectedly"
    ));
    assert!(matches!(
        finish_run(
            RunExit::Supervisor(SupervisorEnd::Panicked("p".to_owned())),
            Some("client".to_owned())
        ),
        FinishStep::Done(Err(text))
            if text == "another runtime failure occurred: client: supervisor panicked; cleanup \
                        of this runtime is uncertain: p"
    ));
    assert!(matches!(
        finish_run(RunExit::Fatal, None),
        FinishStep::AwaitSupervisor
    ));
    assert_eq!(
        finish_fatal(SupervisorWait::Finished(Ok(()))).unwrap_err(),
        "server supervisor entered fatal shutdown"
    );
    assert_eq!(
        finish_fatal(SupervisorWait::Finished(Err("why".to_owned()))).unwrap_err(),
        "server supervisor failed after fatal escalation: why"
    );
    assert_eq!(
        await_supervisor_shutdown(SupervisorWait::Panicked("p".to_owned())).unwrap_err(),
        "server supervisor task failed: p"
    );
    assert_eq!(
        combine_runtime_errors(Ok(()), Some("x".to_owned())),
        Err("x".to_owned())
    );
}

#[test]
fn clients_are_led_by_the_phase() {
    for (phase, expected) in [
        (ServerPhase::Running, Route::ProxyOwned(BackendCycle(3))),
        (ServerPhase::External, Route::ProxyExternal),
        (ServerPhase::Stopped, Route::AnswerAsleep),
        (ServerPhase::Starting, Route::AnswerAsleep),
        (ServerPhase::Conflict, Route::AnswerAsleep),
    ] {
        assert_eq!(route_connection(in_phase(phase)), expected);
    }
}

#[test]
fn logins_wake_sleeping_servers() {
    let login = ClientRequest::Login {
        intent: LoginIntent::Login,
    };
    for (phase, wakes, answer) in [
        (ServerPhase::Reconciling, true, SleepingAnswer::Startup),
        (ServerPhase::Stopped, true, SleepingAnswer::Startup),
        (ServerPhase::Stopping, true, SleepingAnswer::Startup),
        (ServerPhase::Cooldown, true, SleepingAnswer::Startup),
        (ServerPhase::Conflict, true, SleepingAnswer::Conflict),
        (ServerPhase::Starting, false, SleepingAnswer::Startup),
    ] {
        let mut latch = WakeLatch::new();
        let observed = in_phase(phase);
        assert_eq!(
            handle_sampled_connection(observed, login, &mut latch),
            Ok(answer)
        );
        assert_eq!(latch.pending.is_some(), wakes);
        if wakes {
            assert_eq!(latch.pending, Some(WakeRequest::observed(observed)));
        }
        let mut closed = WakeLatch::new();
        closed.close();
        assert_eq!(
            handle_sampled_connection(observed, login, &mut closed).is_err(),
            wakes
        );
    }
    let mut latch = WakeLatch::new();
    let stopped = in_phase(ServerPhase::Stopped);
    assert_eq!(
        handle_sampled_connection(stopped, ClientRequest::Status, &mut latch),
        Ok(SleepingAnswer::Status)
    );
    assert_eq!(
        handle_sampled_connection(
            stopped,
            ClientRequest::UnsupportedProtocol {
                protocol_version: 5
            },
            &mut latch
        ),
        Ok(SleepingAnswer::Incompatible)
    );
    assert!(latch.pending.is_none());
}

#[test]
fn proxied_logins_count_in_their_cycle() {
    let running = in_phase(ServerPhase::Running);
    let cycle = BackendCycle(3);
    let mut backend_use = BackendUseCoordinator::new();
    backend_use.begin_cycle(cycle, 5);
    assert_eq!(
        establish_owned_proxy_activity(
            true,
            running,
            cycle,
            HandshakeIntent::Status,
            &mut backend_use
        ),
        Ok(false)
    );
    assert_eq!(
        establish_owned_proxy_activity(
            true,
            running,
            cycle,
            HandshakeIntent::Transfer,
            &mut backend_use
        ),
        Ok(true)
    );
    assert_eq!(
        backend_use
            .activity_snapshot()
            .unwrap()
            .active_login_transfer_sessions(),
        1
    );
    assert_eq!(
        ensure_current_owned_cycle(false, running, cycle).unwrap_err(),
        "server lifecycle authority stopped while opening a proxy connection"
    );
    assert_eq!(
        ensure_current_owned_cycle(true, running, BackendCycle(2)).unwrap_err(),
        "owned backend cycle changed while opening a proxy connection"
    );
    assert_eq!(
        ensure_current_owned_cycle(true, in_phase(ServerPhase::Stopping), cycle).unwrap_err(),
        "owned backend cycle changed while opening a proxy connection"
    );
    let mut other = BackendUseCoordinator::new();
    other.begin_cycle(BackendCycle(4), 5);
    assert_eq!(
        establish_owned_proxy_activity(true, running, cycle, HandshakeIntent::Login, &mut other)
            .unwrap_err(),
        "backend activity cycle changed before proxy establishment"
    );
}

#[test]
fn backends_are_resolved_without_repetition() {
    let endpoint = Endpoint::new("backend.local", 25_566);
    assert_eq!(
        unique_addresses(&vec![address(1), address(2), address(1), address(3)]),
        [address(1), address(2), address(3)]
    );
    assert_eq!(
        connect_backend_with(
            &endpoint,
            Resolution::Addresses(vec![address(1), address(1)])
        ),
        Ok(vec![address(1)])
    );
    for (resolution, cause) in [
        (Resolution::Addresses(Vec::new()), "no addresses returned"),
        (Resolution::Failed("NXDOMAIN".to_owned()), "NXDOMAIN"),
        (Resolution::TimedOut, "deadline expired"),
    ] {
        assert_eq!(
            connect_backend_with(&endpoint, resolution),
            Err(format!(
                "could not resolve Minecraft backend backend.local:25566: {cause}"
            ))
        );
    }
}

#[test]
fn connection_rounds_rotate_and_slow_down() {
    let mut connect = BackendConnect::new(2, 10_000 * MILLISECOND);
    let mut now = 0;
    let mut first = Vec::new();
    let mut pauses = Vec::new();
    for _ in 0..6 {
        let started = now;
        for turn in 0..2 {
            let ConnectStep::Attempt { address, until } = connect.connect_resolved_backend(now)
            else {
                panic!("an attempt is due");
            };
            assert_eq!(until, now + 1_000 * MILLISECOND);
            if turn == 0 {
                first.push(address);
            } else {
                assert_ne!(address, *first.last().unwrap());
            }
            connect.attempt_failed(BackendConnectFailure::Transport("refused".to_owned()));
            now += 10 * MILLISECOND;
        }
        let ConnectStep::NextRound { at } = connect.connect_resolved_backend(now) else {
            panic!("the round is over");
        };
        pauses.push((at - started) / MILLISECOND);
        now = at;
    }
    assert_eq!(first, [0, 1, 0, 1, 0, 1]);
    assert_eq!(pauses, [100, 200, 400, 800, 1_000, 1_000]);
    assert_eq!(
        connect.connect_resolved_backend(10_000 * MILLISECOND),
        ConnectStep::GiveUp
    );
    let endpoint = Endpoint::new("::1", 25_566);
    assert_eq!(
        connect.failure(&endpoint),
        "could not connect to Minecraft backend [::1]:25566: refused"
    );
    connect.attempt_failed(BackendConnectFailure::TimedOut);
    assert_eq!(
        connect.failure(&endpoint),
        "could not connect to Minecraft backend [::1]:25566: connection attempt timed out"
    );
    assert_eq!(
        BackendConnect::new(1, 5).failure(&endpoint),
        "could not connect to Minecraft backend [::1]:25566: deadline expired"
    );
}

#[test]
fn attempts_end_at_the_deadline() {
    let mut connect = BackendConnect::new(1, 300 * MILLISECOND);
    assert_eq!(
        connect.connect_resolved_backend(0),
        ConnectStep::Attempt {
            address: 0,
            until: 300 * MILLISECOND
        }
    );
    assert_eq!(
        connect.connect_resolved_backend(250 * MILLISECOND),
        ConnectStep::NextRound {
            at: 100 * MILLISECOND
        }
    );
    assert!(matches!(
        connect.connect_resolved_backend(250 * MILLISECOND),
        ConnectStep::Attempt { .. }
    ));
    assert_eq!(
        connect.connect_resolved_backend(260 * MILLISECOND),
        ConnectStep::NextRound {
            at: 300 * MILLISECOND
        }
    );
    assert_eq!(
        connect.connect_resolved_backend(300 * MILLISECOND),
        ConnectStep::GiveUp
    );
}

#[test]
fn processes_are_ended_by_force() {
    assert_eq!(console_stop(), "stop\n");
    assert!(matches!(
        terminate(ProcessQuery::Exited),
        TerminateStep::Done
    ));
    assert!(matches!(
        terminate(ProcessQuery::Running),
        TerminateStep::KillTree
    ));
    assert!(matches!(
        terminate(ProcessQuery::Failed("ECHILD".to_owned())),
        TerminateStep::Failed(text) if text == "failed to query the server process: ECHILD"
    ));
    assert_eq!(process_group(Some(42)), Ok(42));
    let refused = i32::try_from(0x8000_0000_u32).unwrap_err();
    assert_eq!(
        process_group(Some(0x8000_0000)).unwrap_err(),
        format!("server process ID exceeds the Unix PID range: {refused}")
    );
    assert_eq!(
        process_group(None).unwrap_err(),
        "server process has no process ID"
    );
    assert_eq!(
        process_group(Some(0x8000_0000)).unwrap_err(),
        "server process ID exceeds the Unix PID range: \
         out of range integral type conversion attempted"
    );
}

#[test]
fn direct_child_fallback_preserves_uncertain_process_tree_failure() {
    assert!(kills_directly(&ProcessQuery::Running));
    assert!(kills_directly(&ProcessQuery::Failed("ECHILD".to_owned())));
    assert!(!kills_directly(&ProcessQuery::Exited));
    let text = |direct| terminate_direct_after_tree_failure("tree failed", direct);
    assert_eq!(
        text(DirectTermination::AlreadyExited),
        "the direct server process already exited, but descendant cleanup remains uncertain: \
         tree failed"
    );
    assert_eq!(
        text(DirectTermination::Killed { query_error: None }),
        "direct server process termination was requested, but descendant cleanup remains \
         uncertain: tree failed"
    );
    assert_eq!(
        text(DirectTermination::NotKilled {
            query_error: None,
            kill_error: "EPERM".to_owned()
        }),
        "direct server process termination also failed: EPERM; descendant cleanup remains \
         uncertain: tree failed"
    );
    assert_eq!(
        text(DirectTermination::Killed {
            query_error: Some("ECHILD".to_owned())
        }),
        "failed to query the direct server process (ECHILD); direct termination was requested, \
         but descendant cleanup remains uncertain: tree failed"
    );
    assert_eq!(
        text(DirectTermination::NotKilled {
            query_error: Some("ECHILD".to_owned()),
            kill_error: "EPERM".to_owned()
        }),
        "failed to query the direct server process (ECHILD) and direct termination also failed \
         (EPERM); descendant cleanup remains uncertain: tree failed"
    );
}
