//! Running the daemon: activating its servers, observing them, and ending in order.

use vstd::prelude::*;
use vstd::string::StringExecFns;

use crate::config::prepare::PreparedConfig;
use crate::config::schema::{about_server, server_fault, server_fault_text, server_text};
use crate::control::registry::PreparedRegistry;
use crate::runtime::activation::{
    supervisor_shutdown_wait_limit, wait_limit, LONGEST_DURATION,
};
use crate::supervisor::lifecycle::Nanos;
use crate::text::{in_context, outcome, with_context};

use super::failures::{daemon_result, failed, Shutdown, ShutdownView};
use super::signals::{SignalWatcherExit, WatcherEnd};

verus! {

/// What came over the channel on which the watcher of signals reports failures.
#[derive(Clone, Copy, Debug, PartialEq, Eq, Structural)]
pub struct InfrastructureReports {
    /// There was a report.
    pub received: bool,
    /// There will be none any more.
    pub closed: bool,
}

/// What the coordinator knows of the watcher of signals.
#[derive(Clone, Copy, Debug, PartialEq, Eq, Structural)]
pub struct CoordinatorState {
    pub infrastructure_closed: bool,
    pub watcher_failure_received: bool,
    pub watcher_observed: bool,
}

/// The failure that the end of the watcher means, if it means one.
pub open spec fn watcher_failure(
    end: WatcherEnd,
    failure_received: bool,
    pending: bool,
) -> Option<Seq<char>> {
    match end {
        WatcherEnd::Exited(SignalWatcherExit::ShutdownRequested) => if pending {
            None
        } else {
            Some("signal watcher returned after a signal without requesting shutdown"@)
        },
        WatcherEnd::Exited(SignalWatcherExit::FailureReported) => if failure_received {
            None
        } else {
            Some("signal watcher stopped after a failure without reporting its cause"@)
        },
        WatcherEnd::Lost(error) => Some(
            in_context("signal watcher task panicked or was cancelled"@, error@),
        ),
    }
}

/// A shutdown after something that may be a failure.
pub open spec fn maybe_failed(shutdown: ShutdownView, failure: Option<Seq<char>>) -> ShutdownView {
    match failure {
        Some(text) => failed(shutdown, text),
        None => shutdown,
    }
}

impl CoordinatorState {
    /// The state after reports were taken.
    pub open spec fn drained(self, reports: InfrastructureReports) -> CoordinatorState {
        CoordinatorState {
            infrastructure_closed: self.infrastructure_closed || reports.closed,
            watcher_failure_received: self.watcher_failure_received || reports.received,
            ..self
        }
    }

    /// Nothing is known yet.
    pub fn new() -> (state: CoordinatorState)
        ensures
            state == (CoordinatorState {
                infrastructure_closed: false,
                watcher_failure_received: false,
                watcher_observed: false,
            }),
    {
        CoordinatorState {
            infrastructure_closed: false,
            watcher_failure_received: false,
            watcher_observed: false,
        }
    }

    /// A failure was reported.
    pub fn record_infrastructure_failure(&mut self)
        ensures
            *final(self) == (CoordinatorState { watcher_failure_received: true, ..*old(self) }),
    {
        self.watcher_failure_received = true;
    }

    /// Takes what has been reported so far.
    pub fn drain_infrastructure(&mut self, reports: InfrastructureReports)
        ensures
            *final(self) == old(self).drained(reports),
    {
        if reports.received {
            self.record_infrastructure_failure();
        }
        if reports.closed {
            self.infrastructure_closed = true;
        }
    }

    /// Takes the end of the watcher, after what it has reported.
    pub fn observe_watcher(
        &mut self,
        end: WatcherEnd,
        reports: InfrastructureReports,
        shutdown: &mut Shutdown,
    )
        ensures
            *final(self) == (CoordinatorState { watcher_observed: true, ..old(self).drained(
                reports,
            ) }),
            final(shutdown)@ == maybe_failed(
                old(shutdown)@,
                watcher_failure(
                    end,
                    old(self).watcher_failure_received || reports.received,
                    old(shutdown)@.pending,
                ),
            ),
    {
        self.watcher_observed = true;
        self.drain_infrastructure(reports);
        match end {
            WatcherEnd::Exited(SignalWatcherExit::ShutdownRequested) => {
                if !shutdown.is_pending() {
                    shutdown.fail(
                        "signal watcher returned after a signal without requesting shutdown".to_owned(),
                    );
                }
            },
            WatcherEnd::Exited(SignalWatcherExit::FailureReported) => {
                if !self.watcher_failure_received {
                    shutdown.fail(
                        "signal watcher stopped after a failure without reporting its cause".to_owned(),
                    );
                }
            },
            WatcherEnd::Lost(error) => {
                shutdown.fail(
                    with_context(
                        "signal watcher task panicked or was cancelled",
                        error.as_str(),
                    ),
                );
            },
        }
    }
}

/// How the task that looks after a runtime ended.
pub enum MonitorEnd {
    Finished,
    Panicked(String),
}

/// The failure that the end of the task that looks after a runtime means, if it means one.
pub open spec fn monitor_failure(end: MonitorEnd, server: Option<String>) -> Option<Seq<char>> {
    match end {
        MonitorEnd::Finished => None,
        MonitorEnd::Panicked(error) => Some(
            server_fault(
                match server {
                    Some(id) => id@,
                    None => "unknown"@,
                },
                "runtime monitor task panicked"@,
                error@,
            ),
        ),
    }
}

/// Takes the end of the task that looks after a runtime; `server` is whose it was, if that is
/// known.
pub fn observe_runtime(end: MonitorEnd, server: Option<String>, shutdown: &mut Shutdown)
    ensures
        final(shutdown)@ == maybe_failed(old(shutdown)@, monitor_failure(end, server)),
{
    match end {
        MonitorEnd::Finished => {},
        MonitorEnd::Panicked(error) => {
            let id = match &server {
                Some(id) => id.as_str(),
                None => "unknown",
            };
            shutdown.fail(
                server_fault_text(id, "runtime monitor task panicked", error.as_str()),
            );
        },
    }
}

/// How a whole runtime ended.
pub enum RuntimeEnd {
    Returned(Result<(), String>),
    Panicked(String),
}

/// The failure that the end of a runtime means, if it means one: only a runtime that was told to
/// stop may stop.
pub open spec fn runtime_failure(server_id: Seq<char>, end: RuntimeEnd, told: bool) -> Option<
    Seq<char>,
> {
    match end {
        RuntimeEnd::Returned(Ok(_)) => if told {
            None
        } else {
            Some(
                about_server(
                    server_id,
                    "complete runtime stopped unexpectedly before shutdown"@,
                ),
            )
        },
        RuntimeEnd::Returned(Err(error)) => Some(about_server(server_id, error@)),
        RuntimeEnd::Panicked(error) => Some(
            server_fault(
                server_id,
                "complete runtime panicked; cleanup of this runtime is uncertain"@,
                error@,
            ),
        ),
    }
}

/// Takes the end of a runtime; `told` says whether it was told to stop.
pub fn finish_runtime(server_id: &str, end: RuntimeEnd, told: bool, shutdown: &mut Shutdown)
    ensures
        final(shutdown)@ == maybe_failed(old(shutdown)@, runtime_failure(server_id@, end, told)),
{
    match end {
        RuntimeEnd::Returned(Ok(_)) => {
            if !told {
                shutdown.fail(
                    server_text(
                        server_id,
                        "complete runtime stopped unexpectedly before shutdown",
                    ),
                );
            }
        },
        RuntimeEnd::Returned(Err(error)) => {
            shutdown.fail(server_text(server_id, error.as_str()));
        },
        RuntimeEnd::Panicked(error) => {
            shutdown.fail(
                server_fault_text(
                    server_id,
                    "complete runtime panicked; cleanup of this runtime is uncertain",
                    error.as_str(),
                ),
            );
        },
    }
}

/// How the control endpoint ended.
pub enum ControlEnd {
    Returned(Result<(), String>),
    /// Its task panicked or was cancelled.
    Lost(String),
}

/// The failure that the end of the control endpoint means, if it means one.
pub open spec fn control_failure(end: ControlEnd, shutdown_requested: bool) -> Option<Seq<char>> {
    match end {
        ControlEnd::Returned(Ok(_)) => if shutdown_requested {
            None
        } else {
            Some("control accept loop stopped unexpectedly before daemon shutdown"@)
        },
        ControlEnd::Returned(Err(error)) => Some(
            in_context("control infrastructure failed"@, error@),
        ),
        ControlEnd::Lost(error) => Some(
            in_context("control accept loop panicked or was cancelled"@, error@),
        ),
    }
}

/// Takes the end of the control endpoint.
pub fn record_control_result(end: ControlEnd, shutdown_requested: bool, shutdown: &mut Shutdown)
    ensures
        final(shutdown)@ == maybe_failed(
            old(shutdown)@,
            control_failure(end, shutdown_requested),
        ),
{
    match end {
        ControlEnd::Returned(Ok(_)) => {
            if !shutdown_requested {
                shutdown.fail(
                    "control accept loop stopped unexpectedly before daemon shutdown".to_owned(),
                );
            }
        },
        ControlEnd::Returned(Err(error)) => {
            shutdown.fail(with_context("control infrastructure failed", error.as_str()));
        },
        ControlEnd::Lost(error) => {
            shutdown.fail(
                with_context("control accept loop panicked or was cancelled", error.as_str()),
            );
        },
    }
}

/// How far the control endpoint is.
#[derive(Clone, Copy, Debug, PartialEq, Eq, Structural)]
pub enum ControlPhase {
    /// There is none.
    Absent,
    /// It is open, but nothing is answered yet.
    Prepared,
    Running,
}

/// The daemon with its listeners open.
pub struct BoundDaemon {
    pub shutdown: Shutdown,
    pub state: CoordinatorState,
    /// How many servers are configured.
    pub servers: usize,
    /// How many have been activated.
    pub activated: usize,
    /// How many of the activated ones are still looked after.
    pub runtimes: usize,
    pub control: ControlPhase,
    /// The control endpoint has not confirmed yet that it takes no more requests.
    pub admission_open: bool,
    /// The runtimes have been told to stop.
    pub runtime_stop_requested: bool,
}

/// A [`BoundDaemon`] with its failures as sequences of characters.
pub struct DaemonView {
    pub shutdown: ShutdownView,
    pub state: CoordinatorState,
    pub servers: usize,
    pub activated: usize,
    pub runtimes: usize,
    pub control: ControlPhase,
    pub admission_open: bool,
    pub runtime_stop_requested: bool,
}

impl View for BoundDaemon {
    type V = DaemonView;

    open spec fn view(&self) -> DaemonView {
        DaemonView {
            shutdown: self.shutdown@,
            state: self.state,
            servers: self.servers,
            activated: self.activated,
            runtimes: self.runtimes,
            control: self.control,
            admission_open: self.admission_open,
            runtime_stop_requested: self.runtime_stop_requested,
        }
    }
}

impl DaemonView {
    /// No more servers are activated or looked after than there are, and while requests are
    /// still taken, no runtime has been told to stop.
    pub open spec fn valid(self) -> bool {
        &&& self.activated <= self.servers
        &&& self.runtimes <= self.activated
        &&& self.admission_open ==> !self.runtime_stop_requested
        &&& self.control == ControlPhase::Running ==> self.activated == self.servers
    }

    /// The daemon with a failure more.
    pub open spec fn with_failure(self, failure: Option<Seq<char>>) -> DaemonView {
        DaemonView { shutdown: maybe_failed(self.shutdown, failure), ..self }
    }

    /// That the next server may be activated: one is left, and nothing ends the daemon.
    pub open spec fn may_activate(self) -> bool {
        self.activated < self.servers && !self.shutdown.pending
    }

    /// That the control endpoint may begin to answer: every server is active, and nothing ends
    /// the daemon.
    pub open spec fn may_answer(self) -> bool {
        self.control == ControlPhase::Prepared && self.activated == self.servers
            && !self.shutdown.pending
    }

    /// That it is time to tell the runtimes to stop.
    pub open spec fn stop_due(self) -> bool {
        self.shutdown.pending && !self.runtime_stop_requested
    }

    /// That something is left to wait for.
    pub open spec fn busy(self) -> bool {
        self.runtimes > 0 || self.control == ControlPhase::Running
    }
}

/// What can happen to a running daemon, the most urgent first.
pub enum DaemonEvent {
    /// Somebody asked for a shutdown.
    ShutdownRequested,
    /// A failure was reported, or none will be any more.
    Infrastructure { received: bool },
    WatcherEnded(WatcherEnd, InfrastructureReports),
    RuntimeEnded(MonitorEnd, Option<String>),
    ControlEnded(ControlEnd),
}

/// A daemon after an event.
pub open spec fn daemon_after(daemon: DaemonView, event: DaemonEvent) -> DaemonView {
    match event {
        DaemonEvent::ShutdownRequested => daemon,
        DaemonEvent::Infrastructure { received } => DaemonView {
            state: daemon.state.drained(
                InfrastructureReports { received, closed: !received },
            ),
            ..daemon
        },
        DaemonEvent::WatcherEnded(end, reports) => DaemonView {
            state: CoordinatorState { watcher_observed: true, ..daemon.state.drained(reports) },
            ..daemon.with_failure(
                watcher_failure(
                    end,
                    daemon.state.watcher_failure_received || reports.received,
                    daemon.shutdown.pending,
                ),
            )
        },
        DaemonEvent::RuntimeEnded(end, server) => DaemonView {
            runtimes: (daemon.runtimes - 1) as usize,
            ..daemon.with_failure(monitor_failure(end, server))
        },
        DaemonEvent::ControlEnded(end) => DaemonView {
            control: ControlPhase::Absent,
            ..daemon.with_failure(control_failure(end, daemon.runtime_stop_requested))
        },
    }
}

/// What to do about a watcher of signals at the end.
#[derive(Clone, Copy, Debug, PartialEq, Eq, Structural)]
pub enum WatcherStep {
    /// Its end is known.
    Nothing,
    /// Wait for its end.
    Join,
    /// End it; what matters is only an end of its own.
    Abort,
}

impl BoundDaemon {
    /// A daemon whose listeners are open and whose servers are not active.
    pub fn new(servers: usize, control: ControlPhase, shutdown: Shutdown) -> (daemon: BoundDaemon)
        requires
            control != ControlPhase::Running,
        ensures
            daemon@ == (DaemonView {
                shutdown: shutdown@,
                state: CoordinatorState {
                    infrastructure_closed: false,
                    watcher_failure_received: false,
                    watcher_observed: false,
                },
                servers,
                activated: 0,
                runtimes: 0,
                control,
                admission_open: false,
                runtime_stop_requested: false,
            }),
            daemon@.valid(),
    {
        BoundDaemon {
            shutdown,
            state: CoordinatorState::new(),
            servers,
            activated: 0,
            runtimes: 0,
            control,
            admission_open: false,
            runtime_stop_requested: false,
        }
    }

    /// Activates the next server, if one is left and nothing ends the daemon. Says whether it
    /// does.
    pub fn activate_next(&mut self) -> (activate: bool)
        requires
            old(self)@.valid(),
        ensures
            final(self)@.valid(),
            activate == old(self)@.may_activate(),
            final(self)@ == (if activate {
                DaemonView {
                    activated: (old(self)@.activated + 1) as usize,
                    runtimes: (old(self)@.runtimes + 1) as usize,
                    ..old(self)@
                }
            } else {
                old(self)@
            }),
    {
        if self.activated < self.servers && !self.shutdown.is_pending() {
            self.activated += 1;
            self.runtimes += 1;
            true
        } else {
            false
        }
    }

    /// Whether the control endpoint begins to answer.
    pub fn begins_control(&self) -> (begins: bool)
        ensures
            begins == self@.may_answer(),
    {
        self.control == ControlPhase::Prepared && self.activated == self.servers
            && !self.shutdown.is_pending()
    }

    /// Takes how activating the registry went. If it failed, the control endpoint has been
    /// closed; `cleanup` is how that went.
    pub fn control_activated(
        &mut self,
        activation: Result<(), String>,
        cleanup: Result<(), String>,
    )
        requires
            old(self)@.valid(),
            old(self)@.may_answer(),
            !old(self)@.runtime_stop_requested,
        ensures
            final(self)@.valid(),
            match activation {
                Ok(_) => final(self)@ == (DaemonView {
                    control: ControlPhase::Running,
                    admission_open: true,
                    ..old(self)@
                }),
                Err(error) => {
                    let failing = old(self)@.with_failure(
                        Some(in_context("control registry activation failed"@, error@)),
                    );
                    final(self)@ == (DaemonView {
                        control: ControlPhase::Absent,
                        ..failing.with_failure(
                            match cleanup {
                                Ok(_) => None,
                                Err(cause) => Some(
                                    in_context("control endpoint cleanup also failed"@, cause@),
                                ),
                            },
                        )
                    })
                },
            },
    {
        match activation {
            Ok(_) => {
                self.control = ControlPhase::Running;
                self.admission_open = true;
            },
            Err(error) => {
                self.control = ControlPhase::Absent;
                self.shutdown.fail(
                    with_context("control registry activation failed", error.as_str()),
                );
                if let Err(cause) = cleanup {
                    self.shutdown.fail(
                        with_context("control endpoint cleanup also failed", cause.as_str()),
                    );
                }
            },
        }
    }

    /// Gives up a control endpoint that never answered; `cleanup` is how closing it went. Says
    /// whether to tell the runtimes to stop at once.
    pub fn control_abandoned(&mut self, cleanup: Result<(), String>) -> (stop_runtimes: bool)
        requires
            old(self)@.valid(),
            old(self)@.control != ControlPhase::Running,
            !old(self)@.admission_open,
        ensures
            final(self)@.valid(),
            ({
                let given_up = DaemonView {
                    control: ControlPhase::Absent,
                    ..old(self)@.with_failure(
                        match cleanup {
                            Err(error) => if old(self)@.control == ControlPhase::Prepared {
                                Some(
                                    in_context(
                                        "control endpoint cleanup failed before activation"@,
                                        error@,
                                    ),
                                )
                            } else {
                                None
                            },
                            Ok(_) => None,
                        },
                    )
                };
                &&& stop_runtimes == given_up.shutdown.pending
                &&& final(self)@ == (DaemonView {
                    runtime_stop_requested: given_up.runtime_stop_requested || stop_runtimes,
                    ..given_up
                })
            }),
    {
        if self.control == ControlPhase::Prepared {
            self.control = ControlPhase::Absent;
            if let Err(error) = cleanup {
                self.shutdown.fail(
                    with_context(
                        "control endpoint cleanup failed before activation",
                        error.as_str(),
                    ),
                );
            }
        }
        if self.shutdown.is_pending() {
            self.runtime_stop_requested = true;
            true
        } else {
            false
        }
    }

    /// Whether something is left to wait for.
    pub fn is_busy(&self) -> (busy: bool)
        ensures
            busy == self@.busy(),
    {
        self.runtimes > 0 || self.control == ControlPhase::Running
    }

    /// Whether it is time to tell the runtimes to stop. The control endpoint is told first.
    pub fn is_stop_due(&self) -> (due: bool)
        ensures
            due == self@.stop_due(),
    {
        self.shutdown.is_pending() && !self.runtime_stop_requested
    }

    /// Tells the runtimes to stop, after the control endpoint has been told. `lost` is how the
    /// control endpoint ended if it did so instead of confirming.
    pub fn stop_runtimes(&mut self, lost: Option<ControlEnd>)
        requires
            old(self)@.valid(),
            old(self)@.stop_due(),
        ensures
            final(self)@.valid(),
            ({
                let told = DaemonView {
                    admission_open: false,
                    runtime_stop_requested: true,
                    ..old(self)@
                };
                final(self)@ == (match lost {
                    Some(end) => if old(self)@.control == ControlPhase::Running {
                        DaemonView {
                            control: ControlPhase::Absent,
                            ..told.with_failure(control_failure(end, true))
                        }
                    } else {
                        told
                    },
                    None => told,
                })
            }),
    {
        if let Some(end) = lost {
            if self.control == ControlPhase::Running {
                self.control = ControlPhase::Absent;
                record_control_result(end, true, &mut self.shutdown);
            }
        }
        self.admission_open = false;
        self.runtime_stop_requested = true;
    }

    /// Takes an event of the running daemon.
    pub fn activate_and_run(&mut self, event: DaemonEvent)
        requires
            old(self)@.valid(),
            event is RuntimeEnded ==> old(self)@.runtimes > 0,
        ensures
            final(self)@.valid(),
            final(self)@ == daemon_after(old(self)@, event),
    {
        match event {
            DaemonEvent::ShutdownRequested => {},
            DaemonEvent::Infrastructure { received } => {
                self.state.drain_infrastructure(
                    InfrastructureReports { received, closed: !received },
                );
            },
            DaemonEvent::WatcherEnded(end, reports) => {
                self.state.observe_watcher(end, reports, &mut self.shutdown);
            },
            DaemonEvent::RuntimeEnded(end, server) => {
                self.runtimes -= 1;
                observe_runtime(end, server, &mut self.shutdown);
            },
            DaemonEvent::ControlEnded(end) => {
                self.control = ControlPhase::Absent;
                record_control_result(end, self.runtime_stop_requested, &mut self.shutdown);
            },
        }
    }

    /// What to do about the watcher of signals once nothing is left to wait for; `finished` says
    /// whether it is over.
    pub fn watcher_step(&self, finished: bool) -> (step: WatcherStep)
        ensures
            step == (if self@.state.watcher_observed {
                WatcherStep::Nothing
            } else if finished || self@.state.infrastructure_closed {
                WatcherStep::Join
            } else {
                WatcherStep::Abort
            }),
    {
        if self.state.watcher_observed {
            WatcherStep::Nothing
        } else if finished || self.state.infrastructure_closed {
            WatcherStep::Join
        } else {
            WatcherStep::Abort
        }
    }

    /// The result of the daemon. The failures are told once.
    pub fn finish(&mut self) -> (result: Result<(), String>)
        ensures
            outcome(result) == daemon_result(old(self)@.shutdown.failures),
            final(self)@ == (DaemonView {
                shutdown: ShutdownView { failures: Seq::empty(), ..old(self)@.shutdown },
                ..old(self)@
            }),
    {
        self.shutdown.finish()
    }
}

/// A daemon that is to shut down activates no further server and begins to answer no requests.
pub proof fn shutdown_prevents_activation(daemon: DaemonView)
    requires
        daemon.shutdown.pending,
    ensures
        !daemon.may_activate(),
        !daemon.may_answer(),
{
}

/// No event makes a daemon forget that it is to shut down, nor a failure.
pub proof fn daemons_forget_nothing(daemon: DaemonView, event: DaemonEvent)
    ensures
        daemon.shutdown.pending ==> daemon_after(daemon, event).shutdown.pending,
        daemon.shutdown.failures.is_prefix_of(daemon_after(daemon, event).shutdown.failures),
        daemon.runtime_stop_requested ==> daemon_after(daemon, event).runtime_stop_requested,
{
}

/// What the daemon is prepared from: the registry of its control endpoint, and for each server
/// how long its supervisor may take to end.
pub struct PreparedDaemon {
    pub control: PreparedRegistry,
    pub wait_limits: Vec<Nanos>,
}

/// The daemon.
pub struct DaemonCoordinator;

/// The failure of preparing the runtime of a server, if it fails.
pub open spec fn runtime_preparation_fault(
    server_id: Seq<char>,
    command_timeout: Nanos,
    shutdown_timeout: Nanos,
) -> Option<Seq<char>> {
    if wait_limit(command_timeout, shutdown_timeout) <= LONGEST_DURATION {
        None
    } else {
        Some(
            server_fault(
                server_id,
                "runtime preparation failed"@,
                "twice command_timeout_seconds plus shutdown_timeout_seconds and the supervisor shutdown margin exceed the supported duration; reduce one of the timeout settings"@,
            ),
        )
    }
}

impl DaemonCoordinator {
    /// Prepares the runtime of each server; the registry has been prepared before.
    pub fn prepare(control: PreparedRegistry, config: &PreparedConfig) -> (result: Result<
        PreparedDaemon,
        String,
    >)
        requires
            forall|i: int|
                #![trigger config.servers@[i]]
                0 <= i < config.servers@.len()
                    ==> config.servers@[i].runtime.supervisor.command_timeout <= LONGEST_DURATION
                    && config.servers@[i].runtime.supervisor.shutdown_timeout <= LONGEST_DURATION,
        ensures
            ({
                let faults = config.servers@.map_values(
                    |server: crate::config::prepare::PreparedServerConfig|
                        runtime_preparation_fault(
                            server.context@,
                            server.runtime.supervisor.command_timeout,
                            server.runtime.supervisor.shutdown_timeout,
                        ),
                );
                match crate::config::schema::first_fault(faults) {
                    Some(text) => result matches Err(error) && error@ == text,
                    None => {
                        &&& result matches Ok(prepared)
                        &&& prepared.control == control
                        &&& prepared.wait_limits@.len() == config.servers@.len()
                        &&& forall|i: int|
                            0 <= i < config.servers@.len() ==> #[trigger] prepared.wait_limits@[i]
                                == wait_limit(
                                config.servers@[i].runtime.supervisor.command_timeout,
                                config.servers@[i].runtime.supervisor.shutdown_timeout,
                            )
                    },
                }
            }),
    {
        let ghost faults = config.servers@.map_values(
            |server: crate::config::prepare::PreparedServerConfig|
                runtime_preparation_fault(
                    server.context@,
                    server.runtime.supervisor.command_timeout,
                    server.runtime.supervisor.shutdown_timeout,
                ),
        );
        let mut wait_limits: Vec<Nanos> = Vec::new();
        let mut at: usize = 0;
        while at < config.servers.len()
            invariant
                at <= config.servers@.len(),
                forall|i: int|
                    #![trigger config.servers@[i]]
                    0 <= i < config.servers@.len()
                        ==> config.servers@[i].runtime.supervisor.command_timeout
                        <= LONGEST_DURATION
                        && config.servers@[i].runtime.supervisor.shutdown_timeout
                        <= LONGEST_DURATION,
                faults == config.servers@.map_values(
                    |server: crate::config::prepare::PreparedServerConfig|
                        runtime_preparation_fault(
                            server.context@,
                            server.runtime.supervisor.command_timeout,
                            server.runtime.supervisor.shutdown_timeout,
                        ),
                ),
                forall|i: int| 0 <= i < at ==> faults[i] is None,
                wait_limits@.len() == at,
                forall|i: int|
                    0 <= i < at ==> #[trigger] wait_limits@[i] == wait_limit(
                        config.servers@[i].runtime.supervisor.command_timeout,
                        config.servers@[i].runtime.supervisor.shutdown_timeout,
                    ),
            decreases config.servers@.len() - at,
        {
            let server = &config.servers[at];
            match supervisor_shutdown_wait_limit(
                server.runtime.supervisor.command_timeout,
                server.runtime.supervisor.shutdown_timeout,
            ) {
                Ok(limit) => {
                    wait_limits.push(limit);
                },
                Err(cause) => {
                    proof {
                        crate::config::schema::first_fault_is_first(faults, at as int);
                    }
                    return Err(
                        server_fault_text(
                            server.context.id(),
                            "runtime preparation failed",
                            cause.as_str(),
                        ),
                    );
                },
            }
            at += 1;
        }
        proof {
            crate::config::schema::first_fault_is_first(faults, at as int);
        }
        Ok(PreparedDaemon { control, wait_limits })
    }

    /// The failure of opening the listener of a server.
    pub fn binding_failure(server_id: &str, endpoint: &str, cause: &str) -> (text: String)
        ensures
            text@ == server_fault(
                server_id@,
                "listener binding failed"@,
                in_context("failed to listen on "@ + endpoint@, cause@),
            ),
    {
        let mut what = "failed to listen on ".to_owned();
        what.append(endpoint);
        let cause = with_context(what.as_str(), cause);
        server_fault_text(server_id, "listener binding failed", cause.as_str())
    }
}

/// The end of a watcher is a failure unless it asked for the shutdown or told its failure.
pub proof fn watchers_end_for_a_reason(end: WatcherEnd, failure_received: bool, pending: bool)
    ensures
        end == WatcherEnd::Exited(SignalWatcherExit::ShutdownRequested) ==> (watcher_failure(
            end,
            failure_received,
            pending,
        ) is None <==> pending),
        end == WatcherEnd::Exited(SignalWatcherExit::FailureReported) ==> (watcher_failure(
            end,
            failure_received,
            pending,
        ) is None <==> failure_received),
        end is Lost ==> watcher_failure(end, failure_received, pending) is Some,
{
}

/// A runtime, a control loop and a monitor may end only when they were told to, and well.
pub proof fn ends_before_a_shutdown_are_failures(
    server_id: Seq<char>,
    runtime: RuntimeEnd,
    control: ControlEnd,
    monitor: MonitorEnd,
    server: Option<String>,
    told: bool,
)
    ensures
        runtime_failure(server_id, runtime, told) is None <==> told && (
        runtime matches RuntimeEnd::Returned(result) && result is Ok),
        runtime matches RuntimeEnd::Returned(Err(error)) ==> runtime_failure(
            server_id,
            runtime,
            told,
        ) == Some("[server="@ + server_id + "] "@ + error@),
        control_failure(control, told) is None <==> told && (control matches ControlEnd::Returned(
            result,
        ) && result is Ok),
        monitor_failure(monitor, server) is None <==> monitor is Finished,
{
}

/// A daemon starts its servers one after the other and answers once all of them run, as long as no
/// shutdown is asked for; then it tells them to stop, once.
pub proof fn daemons_start_before_they_answer(daemon: DaemonView)
    ensures
        daemon.may_activate() <==> daemon.activated < daemon.servers && !daemon.shutdown.pending,
        daemon.may_answer() <==> daemon.control == ControlPhase::Prepared && daemon.activated
            == daemon.servers && !daemon.shutdown.pending,
        daemon.stop_due() <==> daemon.shutdown.pending && !daemon.runtime_stop_requested,
        daemon.busy() <==> daemon.runtimes > 0 || daemon.control == ControlPhase::Running,
{
}

/// Each event changes what it is about: a runtime that ended is one less, a control loop that
/// ended is absent, and a failure is noted and asks for the shutdown.
pub proof fn events_change_what_they_are_about(daemon: DaemonView, event: DaemonEvent)
    ensures
        ({
            let later = daemon_after(daemon, event);
            &&& later.servers == daemon.servers && later.activated == daemon.activated
                && later.admission_open == daemon.admission_open && later.runtime_stop_requested
                == daemon.runtime_stop_requested
            &&& event is RuntimeEnded && daemon.runtimes > 0 ==> later.runtimes == daemon.runtimes
                - 1
            &&& !(event is RuntimeEnded) ==> later.runtimes == daemon.runtimes
            &&& event is ControlEnded ==> later.control == ControlPhase::Absent
            &&& !(event is ControlEnded) ==> later.control == daemon.control
            &&& event is WatcherEnded ==> later.state.watcher_observed
            &&& !(event is WatcherEnded) ==> later.state.watcher_observed
                == daemon.state.watcher_observed
            &&& event is ShutdownRequested ==> later == daemon
            &&& event matches DaemonEvent::Infrastructure { received } ==> later.shutdown
                == daemon.shutdown && (later.state.watcher_failure_received <==> received
                || daemon.state.watcher_failure_received) && (later.state.infrastructure_closed
                <==> !received || daemon.state.infrastructure_closed)
            &&& event matches DaemonEvent::RuntimeEnded(MonitorEnd::Panicked(error), server)
                ==> later.shutdown.pending && later.shutdown.failures.len()
                == daemon.shutdown.failures.len() + 1
            &&& event matches DaemonEvent::RuntimeEnded(MonitorEnd::Finished, server)
                ==> later.shutdown == daemon.shutdown
            &&& event matches DaemonEvent::ControlEnded(ControlEnd::Returned(result)) ==> (
            result is Ok && daemon.runtime_stop_requested ==> later.shutdown == daemon.shutdown)
                && (result is Err || !daemon.runtime_stop_requested ==> later.shutdown.pending
                && later.shutdown.failures.len() == daemon.shutdown.failures.len() + 1)
        }),
{
}

/// A server's supervisor can be waited for exactly if twice the time for commands, the time for
/// the process to exit and ten seconds more can be measured.
pub proof fn waits_can_be_measured(
    server_id: Seq<char>,
    command_timeout: Nanos,
    shutdown_timeout: Nanos,
)
    ensures
        runtime_preparation_fault(server_id, command_timeout, shutdown_timeout) is None <==> 2
            * command_timeout + shutdown_timeout + 10_000_000_000
            <= 18_446_744_073_709_551_615_999_999_999,
{
}

/// A watcher that ended without a reason is noted as a failure and asks for the shutdown; one that
/// ended for a reason changes nothing of it.
pub proof fn watchers_are_missed(
    daemon: DaemonView,
    end: WatcherEnd,
    reports: InfrastructureReports,
)
    ensures
        ({
            let later = daemon_after(daemon, DaemonEvent::WatcherEnded(end, reports));
            let expected = match end {
                WatcherEnd::Exited(SignalWatcherExit::ShutdownRequested) => daemon.shutdown.pending,
                WatcherEnd::Exited(SignalWatcherExit::FailureReported) => reports.received
                    || daemon.state.watcher_failure_received,
                WatcherEnd::Lost(_) => false,
            };
            &&& expected ==> later.shutdown == daemon.shutdown
            &&& !expected ==> later.shutdown.pending && later.shutdown.failures.len()
                == daemon.shutdown.failures.len() + 1
            &&& later.state.watcher_failure_received <==> reports.received
                || daemon.state.watcher_failure_received
            &&& later.state.infrastructure_closed <==> reports.closed
                || daemon.state.infrastructure_closed
        }),
{
}

/// A daemon is seen as it is.
pub proof fn daemons_are_seen_as_they_are(daemon: BoundDaemon)
    ensures
        daemon@.shutdown == daemon.shutdown@,
        daemon@.state == daemon.state,
        daemon@.servers == daemon.servers,
        daemon@.activated == daemon.activated,
        daemon@.runtimes == daemon.runtimes,
        daemon@.control == daemon.control,
        daemon@.admission_open == daemon.admission_open,
        daemon@.runtime_stop_requested == daemon.runtime_stop_requested,
        daemon@.shutdown.pending == daemon.shutdown.pending,
{
}

} // verus!
