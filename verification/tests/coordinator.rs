//! The daemon as a whole: shutdowns, failures, signals, and the order in which things end.

use mcservernap::control::registry::PreparedRegistry;
use mcservernap::config::prepare::PreparedConfig;
use mcservernap::coordinator::daemon::{
    finish_runtime, observe_runtime, record_control_result, BoundDaemon, ControlEnd, ControlPhase,
    CoordinatorState, DaemonCoordinator, DaemonEvent, InfrastructureReports, MonitorEnd,
    RuntimeEnd, WatcherStep,
};
use mcservernap::coordinator::failures::{FatalErrors, Shutdown};
use mcservernap::coordinator::signals::{
    arm, armed, arming_result, signal_result, terminate_result, AfterArming, SignalWatcherExit,
    WatcherEnd,
};
use mcservernap::runtime::run::{
    finish_run, finish_shutdown, ClientEnd, FinishStep, RunExit, RuntimeEvent, RuntimeStep,
    ServerRuntime, SupervisorEnd, SupervisorWait,
};

const NOTHING: InfrastructureReports = InfrastructureReports {
    received: false,
    closed: false,
};

fn daemon(servers: usize) -> BoundDaemon {
    BoundDaemon::new(servers, ControlPhase::Absent, Shutdown::new())
}

fn activate_all(daemon: &mut BoundDaemon) -> usize {
    let mut activated = 0;
    while daemon.activate_next() {
        activated += 1;
    }
    activated
}

#[test]
fn shared_shutdown_is_idempotent_and_retains_an_early_request() {
    let mut shutdown = Shutdown::new();
    assert!(!shutdown.is_pending());
    assert!(shutdown.request());
    assert!(!shutdown.request());
    assert!(shutdown.is_pending());
    assert_eq!(shutdown.finish(), Ok(()));
    assert!(shutdown.is_pending());
}

#[test]
fn control_task_panic_enters_global_fatal_shutdown() {
    let mut shutdown = Shutdown::new();
    record_control_result(
        ControlEnd::Lost("intentional control task panic".to_owned()),
        false,
        &mut shutdown,
    );
    assert!(shutdown.is_pending());
    let error = shutdown.finish().unwrap_err();
    assert!(error.contains("control accept loop panicked"));
}

#[test]
fn control_results_count_by_the_shutdown() {
    let mut shutdown = Shutdown::new();
    record_control_result(ControlEnd::Returned(Ok(())), true, &mut shutdown);
    assert!(!shutdown.is_pending());
    record_control_result(ControlEnd::Returned(Ok(())), false, &mut shutdown);
    record_control_result(
        ControlEnd::Returned(Err("bind".to_owned())),
        true,
        &mut shutdown,
    );
    assert_eq!(
        shutdown.finish().unwrap_err(),
        "control accept loop stopped unexpectedly before daemon shutdown; additional daemon \
         failures: control infrastructure failed: bind"
    );
}

#[test]
fn buffered_infrastructure_failure_is_drained_after_sender_drop() {
    let mut shutdown = Shutdown::new();
    shutdown.fail("buffered signal-listener failure".to_owned());
    let mut state = CoordinatorState::new();

    state.drain_infrastructure(InfrastructureReports {
        received: true,
        closed: true,
    });

    assert!(state.infrastructure_closed);
    assert!(state.watcher_failure_received);
    assert!(shutdown.is_pending());
    assert!(shutdown
        .finish()
        .unwrap_err()
        .contains("buffered signal-listener failure"));
}

#[test]
fn watcher_panic_and_unexplained_closure_are_fatal() {
    for panic in [true, false] {
        let mut bound = daemon(0);
        let end = if panic {
            WatcherEnd::Lost("task 1 panicked with message".to_owned())
        } else {
            WatcherEnd::Exited(SignalWatcherExit::FailureReported)
        };
        bound.activate_and_run(DaemonEvent::WatcherEnded(
            end,
            InfrastructureReports {
                received: false,
                closed: true,
            },
        ));
        assert!(!bound.is_busy());
        assert_eq!(bound.watcher_step(true), WatcherStep::Nothing);
        let message = bound
            .finish()
            .expect_err("unexplained watcher termination must be fatal");
        assert!(message.contains("signal watcher"));
        assert!(message.contains(if panic {
            "panicked"
        } else {
            "without reporting"
        }));
    }
}

#[test]
fn closed_watcher_channel_is_joined_before_shutdown_finishes() {
    let mut bound = daemon(0);
    assert_eq!(bound.watcher_step(false), WatcherStep::Abort);
    assert_eq!(bound.watcher_step(true), WatcherStep::Join);
    bound.activate_and_run(DaemonEvent::Infrastructure { received: false });
    assert_eq!(bound.watcher_step(false), WatcherStep::Join);
    bound.activate_and_run(DaemonEvent::WatcherEnded(
        WatcherEnd::Exited(SignalWatcherExit::FailureReported),
        NOTHING,
    ));
    assert!(bound
        .finish()
        .unwrap_err()
        .contains("without reporting its cause"));
}

#[test]
fn zero_activation_still_reports_buffered_watcher_failure() {
    let mut shutdown = Shutdown::new();
    shutdown.fail("fatal failure before activation".to_owned());
    let mut bound = BoundDaemon::new(0, ControlPhase::Absent, shutdown);
    bound.activate_and_run(DaemonEvent::WatcherEnded(
        WatcherEnd::Exited(SignalWatcherExit::FailureReported),
        InfrastructureReports {
            received: true,
            closed: true,
        },
    ));
    let error = bound
        .finish()
        .expect_err("fatal watcher failure must survive zero activation");
    assert_eq!(error, "fatal failure before activation");
}

#[test]
fn watchers_that_saw_a_signal_must_have_asked_for_the_shutdown() {
    let mut bound = daemon(0);
    bound.activate_and_run(DaemonEvent::WatcherEnded(
        WatcherEnd::Exited(SignalWatcherExit::ShutdownRequested),
        NOTHING,
    ));
    assert_eq!(
        bound.finish().unwrap_err(),
        "signal watcher returned after a signal without requesting shutdown"
    );
    let mut bound = daemon(0);
    bound.shutdown.request();
    bound.activate_and_run(DaemonEvent::WatcherEnded(
        WatcherEnd::Exited(SignalWatcherExit::ShutdownRequested),
        NOTHING,
    ));
    assert_eq!(bound.finish(), Ok(()));
}

#[test]
fn one_shutdown_request_reaches_all_waiters_before_either_finishes() {
    let mut bound = daemon(2);
    assert_eq!(activate_all(&mut bound), 2);
    assert!(!bound.is_stop_due());
    bound.shutdown.request();
    assert!(bound.is_stop_due());
    bound.stop_runtimes(None);
    assert!(bound.runtime_stop_requested);
    assert_eq!(bound.runtimes, 2);
    assert!(!bound.is_stop_due());
}

#[test]
fn client_panic_starts_other_runtime_cleanup_before_local_cleanup_finishes() {
    let mut bound = daemon(2);
    assert_eq!(activate_all(&mut bound), 2);

    let mut creative = ServerRuntime::new();
    let decision = creative.run_until(RuntimeEvent::ClientEnded(ClientEnd::Panicked(
        "intentional coordinator client panic".to_owned(),
    )));
    assert!(decision.raise_fatal);
    let RuntimeStep::Exit(exit) = decision.step else {
        panic!("a client panic must end the runtime");
    };
    let FinishStep::StopSupervisor(result) = finish_run(exit, None) else {
        panic!("the supervisor must be stopped after a client panic");
    };

    bound.shutdown.request();
    assert!(bound.is_stop_due());
    bound.stop_runtimes(None);
    assert!(bound.is_busy());
    assert_eq!(bound.runtimes, 2);

    let result = finish_shutdown(result, SupervisorWait::Finished(Ok(())));
    finish_runtime(
        "creative",
        RuntimeEnd::Returned(result),
        false,
        &mut bound.shutdown,
    );
    finish_runtime(
        "survival",
        RuntimeEnd::Returned(Ok(())),
        true,
        &mut bound.shutdown,
    );
    bound.activate_and_run(DaemonEvent::RuntimeEnded(MonitorEnd::Finished, None));
    bound.activate_and_run(DaemonEvent::RuntimeEnded(MonitorEnd::Finished, None));
    assert!(!bound.is_busy());

    let message = bound
        .finish()
        .expect_err("a Minecraft client panic must fail the daemon");
    assert!(message.contains("server=creative"));
    assert!(message.contains("client task panicked"));
}

#[test]
fn originating_fatal_remains_primary_while_runtime_cleanups_overlap() {
    let mut bound = daemon(3);
    assert_eq!(activate_all(&mut bound), 3);

    let FinishStep::Done(result) = finish_run(
        RunExit::Supervisor(SupervisorEnd::Failed(
            "originating supervisor failure".to_owned(),
        )),
        None,
    ) else {
        panic!("a supervisor that ended needs no stop");
    };
    finish_runtime(
        "alpha",
        RuntimeEnd::Returned(result),
        false,
        &mut bound.shutdown,
    );
    bound.activate_and_run(DaemonEvent::RuntimeEnded(MonitorEnd::Finished, None));
    assert!(bound.is_stop_due());
    bound.stop_runtimes(None);

    for server in ["beta", "gamma"] {
        assert!(bound.is_busy());
        let cleanup = finish_shutdown(
            Ok(()),
            SupervisorWait::Finished(Err(format!("{server} cleanup failed"))),
        );
        finish_runtime(
            server,
            RuntimeEnd::Returned(cleanup),
            true,
            &mut bound.shutdown,
        );
        bound.activate_and_run(DaemonEvent::RuntimeEnded(MonitorEnd::Finished, None));
    }
    assert!(!bound.is_busy());

    let message = bound.finish().unwrap_err();
    assert!(message
        .starts_with("[server=alpha] server supervisor failed: originating supervisor failure"));
    assert!(message.contains("[server=beta]"));
    assert!(message.contains("beta cleanup failed"));
    assert!(message.contains("[server=gamma]"));
    assert!(message.contains("gamma cleanup failed"));
}

#[test]
fn shutdown_pending_during_activation_prevents_every_supervisor() {
    let mut shutdown = Shutdown::new();
    shutdown.request();
    let mut bound = BoundDaemon::new(2, ControlPhase::Prepared, shutdown);

    assert_eq!(activate_all(&mut bound), 0);
    assert!(!bound.begins_control());
    assert!(bound.control_abandoned(Ok(())));
    assert!(!bound.is_busy());
    assert_eq!(bound.watcher_step(false), WatcherStep::Abort);
    assert_eq!(bound.finish(), Ok(()));
}

#[test]
fn first_runtime_failure_prevents_later_activation() {
    let mut bound = daemon(2);
    assert!(bound.activate_next());

    let FinishStep::Done(result) = finish_run(
        RunExit::Supervisor(SupervisorEnd::Panicked(
            "task 2 panicked with message \"intentional coordinator supervisor panic\"".to_owned(),
        )),
        None,
    ) else {
        panic!("a supervisor that panicked needs no stop");
    };
    finish_runtime(
        "creative",
        RuntimeEnd::Returned(result),
        false,
        &mut bound.shutdown,
    );
    bound.activate_and_run(DaemonEvent::RuntimeEnded(MonitorEnd::Finished, None));
    assert!(!bound.activate_next());
    assert_eq!(bound.activated, 1);

    let message = bound
        .finish()
        .expect_err("first runtime panic must stop activation");
    assert!(message.contains("server=creative"));
    assert!(message.contains("supervisor panicked"));
}

#[test]
fn runtimes_end_only_when_told() {
    let mut shutdown = Shutdown::new();
    finish_runtime("a", RuntimeEnd::Returned(Ok(())), true, &mut shutdown);
    assert!(!shutdown.is_pending());
    finish_runtime("a", RuntimeEnd::Returned(Ok(())), false, &mut shutdown);
    finish_runtime(
        "b",
        RuntimeEnd::Panicked("oops".to_owned()),
        true,
        &mut shutdown,
    );
    observe_runtime(
        MonitorEnd::Panicked("gone".to_owned()),
        None,
        &mut shutdown,
    );
    observe_runtime(MonitorEnd::Finished, Some("c".to_owned()), &mut shutdown);
    assert_eq!(
        shutdown.finish().unwrap_err(),
        "[server=a] complete runtime stopped unexpectedly before shutdown; additional daemon \
         failures: [server=b] complete runtime panicked; cleanup of this runtime is uncertain: \
         oops; [server=unknown] runtime monitor task panicked: gone"
    );
}

#[test]
fn control_answers_only_once_every_server_is_active() {
    let mut bound = BoundDaemon::new(2, ControlPhase::Prepared, Shutdown::new());
    assert!(bound.activate_next());
    assert!(!bound.begins_control());
    assert!(bound.activate_next());
    assert!(!bound.activate_next());
    assert!(bound.begins_control());
    bound.control_activated(Ok(()), Ok(()));
    assert!(bound.admission_open);
    assert!(bound.is_busy());
    bound.shutdown.request();
    bound.stop_runtimes(Some(ControlEnd::Lost("panic".to_owned())));
    assert!(!bound.admission_open);
    assert_eq!(bound.control, ControlPhase::Absent);
    assert_eq!(
        bound.finish().unwrap_err(),
        "control accept loop panicked or was cancelled: panic"
    );
}

#[test]
fn control_that_cannot_begin_ends_the_daemon() {
    let mut bound = BoundDaemon::new(0, ControlPhase::Prepared, Shutdown::new());
    assert!(bound.begins_control());
    bound.control_activated(Err("missing".to_owned()), Err("busy".to_owned()));
    assert!(bound.control_abandoned(Ok(())));
    assert_eq!(
        bound.finish().unwrap_err(),
        "control registry activation failed: missing; additional daemon failures: control \
         endpoint cleanup also failed: busy"
    );
    let mut bound = BoundDaemon::new(1, ControlPhase::Prepared, Shutdown::new());
    assert!(bound.control_abandoned(Err("busy".to_owned())));
    assert_eq!(
        bound.finish().unwrap_err(),
        "control endpoint cleanup failed before activation: busy"
    );
}

#[test]
fn failures_are_told_in_their_order() {
    let errors = FatalErrors::new();
    assert_eq!(errors.finish(), Ok(()));
    let errors = FatalErrors::new().record("one".to_owned());
    assert_eq!(errors.finish(), Err("one".to_owned()));
    let errors = FatalErrors::new()
        .record("one".to_owned())
        .record("two".to_owned())
        .record("three".to_owned());
    assert_eq!(
        errors.finish(),
        Err("one; additional daemon failures: two; three".to_owned())
    );
}

#[test]
fn signal_watcher_acknowledges_registration_before_returning() {
    let mut shutdown = Shutdown::new();
    let arming = arm(Ok(()), None);
    assert_eq!(arming.acknowledgement, Ok(()));
    assert_eq!(arming.next, AfterArming::Watch);
    assert_eq!(armed(arming.next, true, &mut shutdown), None);
    assert_eq!(
        armed(AfterArming::Watch, false, &mut shutdown),
        Some(SignalWatcherExit::FailureReported)
    );
    assert!(!shutdown.is_pending());

    let arming = arm(Ok(()), Some(Ok(())));
    assert_eq!(
        armed(arming.next, true, &mut shutdown),
        Some(SignalWatcherExit::ShutdownRequested)
    );
    assert!(shutdown.is_pending());

    let arming = arm(Err("EMFILE".to_owned()), None);
    assert_eq!(
        arming.acknowledgement,
        Err("failed to register the Unix SIGTERM listener: EMFILE".to_owned())
    );
    assert_eq!(arming.next, AfterArming::Stop);
    let arming = arm(Ok(()), Some(Err("EMFILE".to_owned())));
    assert_eq!(
        arming.acknowledgement,
        Err("failed to register the Ctrl+C listener: EMFILE".to_owned())
    );
    assert_eq!(arming_result(Some(Ok(()))), Ok(()));
    assert_eq!(
        arming_result(None),
        Err("signal watcher stopped before confirming registration".to_owned())
    );
}

#[test]
fn signals_shut_down_and_lost_listeners_fail() {
    let mut shutdown = Shutdown::new();
    let watched = signal_result(Ok(()), "Ctrl+C", &mut shutdown);
    assert_eq!(watched.exit, SignalWatcherExit::ShutdownRequested);
    assert!(!watched.report_failure);
    let watched = terminate_result(true, &mut shutdown);
    assert_eq!(watched.exit, SignalWatcherExit::ShutdownRequested);
    assert_eq!(shutdown.finish(), Ok(()));
    let watched = signal_result(Err("EIO".to_owned()), "Ctrl+C", &mut shutdown);
    assert_eq!(watched.exit, SignalWatcherExit::FailureReported);
    assert!(watched.report_failure);
    assert_eq!(
        shutdown.finish().unwrap_err(),
        "Ctrl+C listener failed: EIO"
    );
    let watched = terminate_result(false, &mut shutdown);
    assert!(watched.report_failure);
    assert_eq!(
        shutdown.finish().unwrap_err(),
        "Unix SIGTERM listener closed unexpectedly"
    );
}

#[test]
fn binding_failures_name_the_server() {
    assert_eq!(
        DaemonCoordinator::binding_failure("survival", "127.0.0.1:25565", "in use"),
        "[server=survival] listener binding failed: failed to listen on 127.0.0.1:25565: in use"
    );
}

#[test]
fn daemons_without_servers_have_no_wait_limits() {
    let registry = PreparedRegistry::new(&vec!["survival".to_owned()])
        .ok()
        .unwrap();
    let prepared = DaemonCoordinator::prepare(
        registry,
        &PreparedConfig {
            max_connections: 1,
            servers: Vec::new(),
        },
    )
    .ok()
    .unwrap();
    assert!(prepared.wait_limits.is_empty());
    assert_eq!(prepared.control.server_ids(), &["survival"]);
}
