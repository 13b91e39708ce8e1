//! The loop of a server's runtime: accepting clients, letting go of them, and ending.

use vstd::prelude::*;
use vstd::string::StringExecFns;

use crate::text::{in_context, maybe_text, outcome, with_context};

verus! {

/// How the supervisor of a server ended.
pub enum SupervisorEnd {
    Panicked(String),
    Failed(String),
    Finished,
}

/// A [`SupervisorEnd`] with its texts as sequences of characters.
pub enum SupervisorEndView {
    Panicked(Seq<char>),
    Failed(Seq<char>),
    Finished,
}

impl View for SupervisorEnd {
    type V = SupervisorEndView;

    open spec fn view(&self) -> SupervisorEndView {
        match *self {
            SupervisorEnd::Panicked(text) => SupervisorEndView::Panicked(text@),
            SupervisorEnd::Failed(text) => SupervisorEndView::Failed(text@),
            SupervisorEnd::Finished => SupervisorEndView::Finished,
        }
    }
}

/// Why the loop is left.
pub enum RunExit {
    Shutdown(Result<(), String>),
    Supervisor(SupervisorEnd),
    ClientTaskPanic(String),
    Fatal,
    QuiescenceFailure(String),
}

/// A [`RunExit`] with its texts as sequences of characters.
pub enum RunExitView {
    Shutdown(Result<(), Seq<char>>),
    Supervisor(SupervisorEndView),
    ClientTaskPanic(Seq<char>),
    Fatal,
    QuiescenceFailure(Seq<char>),
}

impl View for RunExit {
    type V = RunExitView;

    open spec fn view(&self) -> RunExitView {
        match *self {
            RunExit::Shutdown(result) => RunExitView::Shutdown(outcome(result)),
            RunExit::Supervisor(end) => RunExitView::Supervisor(end@),
            RunExit::ClientTaskPanic(text) => RunExitView::ClientTaskPanic(text@),
            RunExit::Fatal => RunExitView::Fatal,
            RunExit::QuiescenceFailure(text) => RunExitView::QuiescenceFailure(text@),
        }
    }
}

/// How serving a client ended.
pub enum ClientEnd {
    Finished,
    Cancelled(String),
    Panicked(String),
}

/// Whether a new client may be served.
#[derive(Clone, Copy, Debug, PartialEq, Eq, Structural)]
pub enum ConnectionPermit {
    Granted,
    NoPermits,
    Closed,
}

/// What can happen to a runtime, the most urgent first.
pub enum RuntimeEvent {
    SupervisorEnded(SupervisorEnd),
    ShutdownRequested(Result<(), String>),
    /// The fatal signal changed; `open` says whether anybody can still raise it.
    FatalChanged { open: bool, raised: bool },
    QuiescenceClosed,
    QuiescenceRequested,
    ClientEnded(ClientEnd),
    AcceptFailed,
    Accepted(ConnectionPermit),
}

/// What a runtime does next.
pub enum RuntimeStep {
    Continue,
    /// Accept nothing for a moment.
    PauseAccepting,
    /// Hang up on the client that was accepted.
    DropClient,
    /// Serve the client that was accepted.
    ServeClient,
    /// Let go of every client and answer the supervisor.
    Drain,
    Exit(RunExit),
}

/// A [`RuntimeStep`] with its texts as sequences of characters.
pub enum RuntimeStepView {
    Continue,
    PauseAccepting,
    DropClient,
    ServeClient,
    Drain,
    Exit(RunExitView),
}

impl View for RuntimeStep {
    type V = RuntimeStepView;

    open spec fn view(&self) -> RuntimeStepView {
        match *self {
            RuntimeStep::Continue => RuntimeStepView::Continue,
            RuntimeStep::PauseAccepting => RuntimeStepView::PauseAccepting,
            RuntimeStep::DropClient => RuntimeStepView::DropClient,
            RuntimeStep::ServeClient => RuntimeStepView::ServeClient,
            RuntimeStep::Drain => RuntimeStepView::Drain,
            RuntimeStep::Exit(exit) => RuntimeStepView::Exit(exit@),
        }
    }
}

/// What a runtime does next, and whether it raises the fatal signal before.
pub struct RuntimeDecision {
    pub step: RuntimeStep,
    pub raise_fatal: bool,
}

/// What a runtime remembers from one event to the next.
#[derive(Clone, Copy, Debug, PartialEq, Eq, Structural)]
pub struct ServerRuntime {
    /// Nobody will ask for rest any more.
    pub quiescence_closed: bool,
}

/// What a runtime does next.
pub open spec fn runtime_step(event: RuntimeEvent) -> RuntimeStepView {
    match event {
        RuntimeEvent::SupervisorEnded(end) => RuntimeStepView::Exit(
            RunExitView::Supervisor(end@),
        ),
        RuntimeEvent::ShutdownRequested(result) => RuntimeStepView::Exit(
            RunExitView::Shutdown(outcome(result)),
        ),
        RuntimeEvent::FatalChanged { open, raised } => if open && raised {
            RuntimeStepView::Exit(RunExitView::Fatal)
        } else {
            RuntimeStepView::Continue
        },
        RuntimeEvent::QuiescenceClosed => RuntimeStepView::Continue,
        RuntimeEvent::QuiescenceRequested => RuntimeStepView::Drain,
        RuntimeEvent::ClientEnded(ClientEnd::Finished) => RuntimeStepView::Continue,
        RuntimeEvent::ClientEnded(ClientEnd::Cancelled(text)) => RuntimeStepView::Exit(
            RunExitView::ClientTaskPanic(text@),
        ),
        RuntimeEvent::ClientEnded(ClientEnd::Panicked(text)) => RuntimeStepView::Exit(
            RunExitView::ClientTaskPanic(text@),
        ),
        RuntimeEvent::AcceptFailed => RuntimeStepView::PauseAccepting,
        RuntimeEvent::Accepted(ConnectionPermit::Granted) => RuntimeStepView::ServeClient,
        RuntimeEvent::Accepted(ConnectionPermit::NoPermits) => RuntimeStepView::DropClient,
        RuntimeEvent::Accepted(ConnectionPermit::Closed) => RuntimeStepView::Exit(
            RunExitView::Shutdown(Err("connection limiter unexpectedly closed"@)),
        ),
    }
}

impl ServerRuntime {
    /// A runtime that has just begun.
    pub fn new() -> (runtime: ServerRuntime)
        ensures
            !runtime.quiescence_closed,
    {
        ServerRuntime { quiescence_closed: false }
    }

    /// Takes an event. Only a client that did not end by itself raises the fatal signal.
    pub fn run_until(&mut self, event: RuntimeEvent) -> (decision: RuntimeDecision)
        ensures
            decision.step@ == runtime_step(event),
            decision.raise_fatal == (event matches RuntimeEvent::ClientEnded(end) && !(
            end is Finished)),
            final(self).quiescence_closed == (old(self).quiescence_closed || event
                is QuiescenceClosed),
    {
        match event {
            RuntimeEvent::SupervisorEnded(end) => RuntimeDecision {
                step: RuntimeStep::Exit(RunExit::Supervisor(end)),
                raise_fatal: false,
            },
            RuntimeEvent::ShutdownRequested(result) => RuntimeDecision {
                step: RuntimeStep::Exit(RunExit::Shutdown(result)),
                raise_fatal: false,
            },
            RuntimeEvent::FatalChanged { open, raised } => RuntimeDecision {
                step: if open && raised {
                    RuntimeStep::Exit(RunExit::Fatal)
                } else {
                    RuntimeStep::Continue
                },
                raise_fatal: false,
            },
            RuntimeEvent::QuiescenceClosed => {
                self.quiescence_closed = true;
                RuntimeDecision { step: RuntimeStep::Continue, raise_fatal: false }
            },
            RuntimeEvent::QuiescenceRequested => RuntimeDecision {
                step: RuntimeStep::Drain,
                raise_fatal: false,
            },
            RuntimeEvent::ClientEnded(ClientEnd::Finished) => RuntimeDecision {
                step: RuntimeStep::Continue,
                raise_fatal: false,
            },
            RuntimeEvent::ClientEnded(ClientEnd::Cancelled(text)) => RuntimeDecision {
                step: RuntimeStep::Exit(RunExit::ClientTaskPanic(text)),
                raise_fatal: true,
            },
            RuntimeEvent::ClientEnded(ClientEnd::Panicked(text)) => RuntimeDecision {
                step: RuntimeStep::Exit(RunExit::ClientTaskPanic(text)),
                raise_fatal: true,
            },
            RuntimeEvent::AcceptFailed => RuntimeDecision {
                step: RuntimeStep::PauseAccepting,
                raise_fatal: false,
            },
            RuntimeEvent::Accepted(ConnectionPermit::Granted) => RuntimeDecision {
                step: RuntimeStep::ServeClient,
                raise_fatal: false,
            },
            RuntimeEvent::Accepted(ConnectionPermit::NoPermits) => RuntimeDecision {
                step: RuntimeStep::DropClient,
                raise_fatal: false,
            },
            RuntimeEvent::Accepted(ConnectionPermit::Closed) => RuntimeDecision {
                step: RuntimeStep::Exit(
                    RunExit::Shutdown(Err("connection limiter unexpectedly closed".to_owned())),
                ),
                raise_fatal: false,
            },
        }
    }
}

/// The first panic that is known after a client ended, and whether this one is it.
pub open spec fn panic_after(
    known: Option<Seq<char>>,
    ended: ClientEnd,
    context: Seq<char>,
) -> (Option<Seq<char>>, bool) {
    match ended {
        ClientEnd::Panicked(text) => if known is None {
            (Some(in_context(context, text@)), true)
        } else {
            (known, false)
        },
        _ => (known, false),
    }
}

/// Keeps the first panic of a client. Says whether this one is it.
pub fn record_client_panic(ended: ClientEnd, panic: &mut Option<String>, context: &str) -> (first:
    bool)
    ensures
        (maybe_text(*final(panic)), first) == panic_after(maybe_text(*old(panic)), ended, context@),
{
    match ended {
        ClientEnd::Panicked(text) => {
            if panic.is_none() {
                *panic = Some(with_context(context, text.as_str()));
                true
            } else {
                false
            }
        },
        _ => false,
    }
}

/// Letting go of every client because the supervisor asked for it.
pub struct Drain {
    pub interruption: Option<RunExit>,
    pub shutdown_result: Option<Result<(), String>>,
    pub drain_panic: Option<String>,
}

/// A [`Drain`] with its texts as sequences of characters.
pub struct DrainView {
    pub interruption: Option<RunExitView>,
    pub shutdown_result: Option<Result<(), Seq<char>>>,
    pub drain_panic: Option<Seq<char>>,
}

impl View for Drain {
    type V = DrainView;

    open spec fn view(&self) -> DrainView {
        DrainView {
            interruption: match self.interruption {
                Some(exit) => Some(exit@),
                None => None,
            },
            shutdown_result: match self.shutdown_result {
                Some(result) => Some(outcome(result)),
                None => None,
            },
            drain_panic: maybe_text(self.drain_panic),
        }
    }
}

/// What can happen while clients are let go, the most urgent first.
pub enum DrainEvent {
    SupervisorEnded(SupervisorEnd),
    ShutdownRequested(Result<(), String>),
    FatalChanged { open: bool, raised: bool },
    /// Nobody waits for the answer any more.
    AcknowledgementClosed,
    ClientEnded(ClientEnd),
}

/// The circumstance of a panic while clients are let go.
pub open spec fn drain_panic_context() -> Seq<char> {
    "client task panicked during runtime quiescence"@
}

/// The failure of a drain whose answer nobody waits for.
pub open spec fn answer_lost() -> RunExitView {
    RunExitView::QuiescenceFailure("runtime quiescence acknowledgement receiver disappeared"@)
}

/// The failure of a drain during which the fatal signal disappeared.
pub open spec fn signal_lost() -> RunExitView {
    RunExitView::QuiescenceFailure("fatal runtime signal closed during quiescence"@)
}

/// A drain after an event. Once it is interrupted, only clients matter.
pub open spec fn drain_after(drain: DrainView, event: DrainEvent) -> DrainView {
    match event {
        DrainEvent::ClientEnded(ended) => DrainView {
            drain_panic: panic_after(drain.drain_panic, ended, drain_panic_context()).0,
            ..drain
        },
        _ => if drain.interruption is Some {
            drain
        } else {
            match event {
                DrainEvent::SupervisorEnded(end) => DrainView {
                    interruption: Some(RunExitView::Supervisor(end@)),
                    ..drain
                },
                DrainEvent::ShutdownRequested(result) => if drain.shutdown_result is None {
                    DrainView { shutdown_result: Some(outcome(result)), ..drain }
                } else {
                    drain
                },
                DrainEvent::FatalChanged { open, raised } => if !open {
                    DrainView { interruption: Some(signal_lost()), ..drain }
                } else if raised {
                    DrainView { interruption: Some(RunExitView::Fatal), ..drain }
                } else {
                    drain
                },
                _ => DrainView { interruption: Some(answer_lost()), ..drain },
            }
        },
    }
}

/// Whether an event during a drain raises the fatal signal.
pub open spec fn drain_raises(drain: DrainView, event: DrainEvent) -> bool {
    match event {
        DrainEvent::ClientEnded(ended) => panic_after(
            drain.drain_panic,
            ended,
            drain_panic_context(),
        ).1,
        DrainEvent::FatalChanged { open, raised } => drain.interruption is None && !open,
        DrainEvent::AcknowledgementClosed => drain.interruption is None,
        _ => false,
    }
}

/// What a drain comes to once no client is left.
pub enum DrainConclusion {
    /// Raise the fatal signal, answer with this failure and leave the loop with it.
    Fail(String),
    /// Leave the loop without an answer.
    Exit(RunExit),
    /// Answer that the runtime is at rest. A shutdown that came meanwhile is next.
    Acknowledge { shutdown: Option<Result<(), String>> },
}

/// A [`DrainConclusion`] with its texts as sequences of characters.
pub enum DrainConclusionView {
    Fail(Seq<char>),
    Exit(RunExitView),
    Acknowledge(Option<Result<(), Seq<char>>>),
}

impl View for DrainConclusion {
    type V = DrainConclusionView;

    open spec fn view(&self) -> DrainConclusionView {
        match *self {
            DrainConclusion::Fail(text) => DrainConclusionView::Fail(text@),
            DrainConclusion::Exit(exit) => DrainConclusionView::Exit(exit@),
            DrainConclusion::Acknowledge { shutdown: Some(result) } => {
                DrainConclusionView::Acknowledge(Some(outcome(result)))
            },
            DrainConclusion::Acknowledge { shutdown: None } => {
                DrainConclusionView::Acknowledge(None)
            },
        }
    }
}

/// What a drain comes to: a panic counts most, then an interruption.
pub open spec fn conclusion(drain: DrainView) -> DrainConclusionView {
    match drain.drain_panic {
        Some(text) => DrainConclusionView::Fail(text),
        None => match drain.interruption {
            Some(exit) => DrainConclusionView::Exit(exit),
            None => DrainConclusionView::Acknowledge(drain.shutdown_result),
        },
    }
}

impl Drain {
    /// Nothing has happened yet.
    pub fn new() -> (drain: Drain)
        ensures
            drain@ == (DrainView { interruption: None, shutdown_result: None, drain_panic: None }),
    {
        Drain { interruption: None, shutdown_result: None, drain_panic: None }
    }

    /// Whether something came between: then only the end of the clients is waited for.
    pub fn is_interrupted(&self) -> (interrupted: bool)
        ensures
            interrupted == (self@.interruption is Some),
    {
        self.interruption.is_some()
    }

    /// Whether a shutdown is still worth waiting for.
    pub fn waits_for_shutdown(&self) -> (waits: bool)
        ensures
            waits == (self@.interruption is None && self@.shutdown_result is None),
    {
        self.interruption.is_none() && self.shutdown_result.is_none()
    }

    /// Takes an event. Says whether to raise the fatal signal.
    pub fn event(&mut self, event: DrainEvent) -> (raise_fatal: bool)
        ensures
            final(self)@ == drain_after(old(self)@, event),
            raise_fatal == drain_raises(old(self)@, event),
    {
        match event {
            DrainEvent::ClientEnded(ended) => record_client_panic(
                ended,
                &mut self.drain_panic,
                "client task panicked during runtime quiescence",
            ),
            DrainEvent::SupervisorEnded(end) => {
                if self.interruption.is_none() {
                    self.interruption = Some(RunExit::Supervisor(end));
                }
                false
            },
            DrainEvent::ShutdownRequested(result) => {
                if self.interruption.is_none() && self.shutdown_result.is_none() {
                    self.shutdown_result = Some(result);
                }
                false
            },
            DrainEvent::FatalChanged { open, raised } => {
                if self.interruption.is_some() {
                    return false;
                }
                if !open {
                    self.interruption = Some(
                        RunExit::QuiescenceFailure(
                            "fatal runtime signal closed during quiescence".to_owned(),
                        ),
                    );
                    return true;
                }
                if raised {
                    self.interruption = Some(RunExit::Fatal);
                }
                false
            },
            DrainEvent::AcknowledgementClosed => {
                if self.interruption.is_some() {
                    return false;
                }
                self.interruption = Some(
                    RunExit::QuiescenceFailure(
                        "runtime quiescence acknowledgement receiver disappeared".to_owned(),
                    ),
                );
                true
            },
        }
    }

    /// What the drain comes to once no client is left.
    pub fn conclude(self) -> (conclusion: DrainConclusion)
        ensures
            conclusion@ == self::conclusion(self@),
    {
        if let Some(text) = self.drain_panic {
            return DrainConclusion::Fail(text);
        }
        if let Some(exit) = self.interruption {
            return DrainConclusion::Exit(exit);
        }
        DrainConclusion::Acknowledge { shutdown: self.shutdown_result }
    }
}

/// How a drain ends after the answer: whether to raise the fatal signal, and whether to leave
/// the loop.
pub struct DrainEnd {
    pub raise_fatal: bool,
    pub exit: Option<RunExit>,
}

/// How a drain ends after the answer that the runtime is at rest. An answer that was lost is a
/// failure, unless a failure is known already.
pub fn acknowledged(
    delivered: bool,
    fatal_raised: bool,
    shutdown: Option<Result<(), String>>,
) -> (end: DrainEnd)
    ensures
        end.raise_fatal == (!delivered && !fatal_raised),
        if end.raise_fatal {
            end.exit matches Some(exit) && exit@ == answer_lost()
        } else {
            match shutdown {
                Some(result) => end.exit matches Some(exit) && exit@ == RunExitView::Shutdown(
                    outcome(result),
                ),
                None => end.exit is None,
            }
        },
{
    if !delivered && !fatal_raised {
        return DrainEnd {
            raise_fatal: true,
            exit: Some(
                RunExit::QuiescenceFailure(
                    "runtime quiescence acknowledgement receiver disappeared".to_owned(),
                ),
            ),
        };
    }
    match shutdown {
        Some(result) => DrainEnd { raise_fatal: false, exit: Some(RunExit::Shutdown(result)) },
        None => DrainEnd { raise_fatal: false, exit: None },
    }
}

/// A result with a further failure, over characters.
pub open spec fn combined(primary: Result<(), Seq<char>>, additional: Option<Seq<char>>) -> Result<
    (),
    Seq<char>,
> {
    match additional {
        None => primary,
        Some(additional) => match primary {
            Ok(_) => Err(additional),
            Err(primary) => Err(
                in_context(
                    in_context("another runtime failure occurred"@, additional),
                    primary,
                ),
            ),
        },
    }
}

/// Puts a result and a further failure together.
pub fn combine_runtime_errors(primary: Result<(), String>, additional: Option<String>) -> (result:
    Result<(), String>)
    ensures
        outcome(result) == combined(outcome(primary), maybe_text(additional)),
{
    match (primary, additional) {
        (result, None) => result,
        (Ok(_), Some(error)) => Err(error),
        (Err(primary), Some(additional)) => {
            let note = with_context("another runtime failure occurred", additional.as_str());
            Err(with_context(note.as_str(), primary.as_str()))
        },
    }
}

/// What is left to do once the loop is left and no client is left.
pub enum FinishStep {
    /// The runtime is over.
    Done(Result<(), String>),
    /// Tell the supervisor to stop, wait for it, and then end with this result.
    StopSupervisor(Result<(), String>),
    /// Wait for the supervisor, which stops by itself.
    AwaitSupervisor,
}

/// A [`FinishStep`] with its texts as sequences of characters.
pub enum FinishStepView {
    Done(Result<(), Seq<char>>),
    StopSupervisor(Result<(), Seq<char>>),
    AwaitSupervisor,
}

impl View for FinishStep {
    type V = FinishStepView;

    open spec fn view(&self) -> FinishStepView {
        match *self {
            FinishStep::Done(result) => FinishStepView::Done(outcome(result)),
            FinishStep::StopSupervisor(result) => FinishStepView::StopSupervisor(outcome(result)),
            FinishStep::AwaitSupervisor => FinishStepView::AwaitSupervisor,
        }
    }
}

/// The failure of a runtime whose supervisor ended by itself. It is one in every case.
pub open spec fn supervisor_failure(end: SupervisorEndView) -> Seq<char> {
    match end {
        SupervisorEndView::Panicked(text) => in_context(
            "supervisor panicked; cleanup of this runtime is uncertain"@,
            text,
        ),
        SupervisorEndView::Failed(text) => in_context("server supervisor failed"@, text),
        SupervisorEndView::Finished => "server supervisor stopped unexpectedly"@,
    }
}

/// What is left to do once the loop is left.
pub open spec fn finish_step(exit: RunExitView, client_panic: Option<Seq<char>>) -> FinishStepView {
    match exit {
        RunExitView::Supervisor(end) => FinishStepView::Done(
            combined(Err(supervisor_failure(end)), client_panic),
        ),
        RunExitView::Shutdown(result) => FinishStepView::StopSupervisor(
            combined(result, client_panic),
        ),
        RunExitView::ClientTaskPanic(text) => FinishStepView::StopSupervisor(
            combined(Err(in_context("client task panicked"@, text)), client_panic),
        ),
        RunExitView::QuiescenceFailure(text) => FinishStepView::StopSupervisor(Err(text)),
        RunExitView::Fatal => FinishStepView::AwaitSupervisor,
    }
}

/// What is left to do once the loop is left and no client is left; `client_panic` is the first
/// panic while they were let go.
pub fn finish_run(exit: RunExit, client_panic: Option<String>) -> (step: FinishStep)
    ensures
        step@ == finish_step(exit@, maybe_text(client_panic)),
{
    match exit {
        RunExit::Supervisor(end) => {
            let failure = match end {
                SupervisorEnd::Panicked(text) => with_context(
                    "supervisor panicked; cleanup of this runtime is uncertain",
                    text.as_str(),
                ),
                SupervisorEnd::Failed(text) => with_context(
                    "server supervisor failed",
                    text.as_str(),
                ),
                SupervisorEnd::Finished => "server supervisor stopped unexpectedly".to_owned(),
            };
            FinishStep::Done(combine_runtime_errors(Err(failure), client_panic))
        },
        RunExit::Shutdown(result) => FinishStep::StopSupervisor(
            combine_runtime_errors(result, client_panic),
        ),
        RunExit::ClientTaskPanic(text) => FinishStep::StopSupervisor(
            combine_runtime_errors(
                Err(with_context("client task panicked", text.as_str())),
                client_panic,
            ),
        ),
        RunExit::QuiescenceFailure(text) => FinishStep::StopSupervisor(Err(text)),
        RunExit::Fatal => FinishStep::AwaitSupervisor,
    }
}

/// How waiting for the supervisor ended.
pub enum SupervisorWait {
    Finished(Result<(), String>),
    Panicked(String),
    /// It did not stop in time; `limit` is how long it had.
    TimedOut { limit: String },
}

/// How waiting for the supervisor ended, as a result.
pub open spec fn waited(wait: SupervisorWait) -> Result<(), Seq<char>> {
    match wait {
        SupervisorWait::Finished(result) => outcome(result),
        SupervisorWait::Panicked(text) => Err(
            in_context("server supervisor task failed"@, text@),
        ),
        SupervisorWait::TimedOut { limit } => Err(
            "server supervisor did not stop within "@ + limit@,
        ),
    }
}

/// How waiting for the supervisor ended, as a result.
pub fn await_supervisor_shutdown(wait: SupervisorWait) -> (result: Result<(), String>)
    ensures
        outcome(result) == waited(wait),
{
    match wait {
        SupervisorWait::Finished(result) => result,
        SupervisorWait::Panicked(text) => Err(
            with_context("server supervisor task failed", text.as_str()),
        ),
        SupervisorWait::TimedOut { limit } => {
            let mut text = "server supervisor did not stop within ".to_owned();
            text.append(limit.as_str());
            Err(text)
        },
    }
}

/// The result of a runtime that stopped its supervisor.
pub open spec fn shutdown_finished(
    shutdown: Result<(), Seq<char>>,
    cleanup: Result<(), Seq<char>>,
) -> Result<(), Seq<char>> {
    match (shutdown, cleanup) {
        (Ok(_), Ok(_)) => Ok(()),
        (Err(error), Ok(_)) => Err(error),
        (Ok(_), Err(error)) => Err(error),
        (Err(shutdown), Err(cleanup)) => Err(
            in_context(in_context("runtime cleanup also failed"@, cleanup), shutdown),
        ),
    }
}

/// Ends a runtime that stopped its supervisor.
pub fn finish_shutdown(shutdown_result: Result<(), String>, wait: SupervisorWait) -> (result:
    Result<(), String>)
    ensures
        outcome(result) == shutdown_finished(outcome(shutdown_result), waited(wait)),
{
    match (shutdown_result, await_supervisor_shutdown(wait)) {
        (Ok(_), Ok(_)) => Ok(()),
        (Err(error), Ok(_)) => Err(error),
        (Ok(_), Err(error)) => Err(error),
        (Err(shutdown_error), Err(cleanup_error)) => {
            let note = with_context("runtime cleanup also failed", cleanup_error.as_str());
            Err(with_context(note.as_str(), shutdown_error.as_str()))
        },
    }
}

/// The result of a runtime whose supervisor raised the fatal signal. It is a failure in every
/// case.
pub open spec fn fatal_finished(cleanup: Result<(), Seq<char>>) -> Result<(), Seq<char>> {
    match cleanup {
        Ok(_) => Err("server supervisor entered fatal shutdown"@),
        Err(error) => Err(
            in_context("server supervisor failed after fatal escalation"@, error),
        ),
    }
}

/// Ends a runtime whose supervisor raised the fatal signal.
pub fn finish_fatal(wait: SupervisorWait) -> (result: Result<(), String>)
    ensures
        outcome(result) == fatal_finished(waited(wait)),
{
    match await_supervisor_shutdown(wait) {
        Ok(_) => Err("server supervisor entered fatal shutdown".to_owned()),
        Err(error) => Err(
            with_context("server supervisor failed after fatal escalation", error.as_str()),
        ),
    }
}

/// The result of a runtime, from why its loop was left, the panics while its clients were let
/// go, and how its supervisor ended.
pub open spec fn run_result(
    exit: RunExitView,
    client_panic: Option<Seq<char>>,
    cleanup: Result<(), Seq<char>>,
) -> Result<(), Seq<char>> {
    match finish_step(exit, client_panic) {
        FinishStepView::Done(result) => result,
        FinishStepView::StopSupervisor(result) => shutdown_finished(result, cleanup),
        FinishStepView::AwaitSupervisor => fatal_finished(cleanup),
    }
}

/// A runtime succeeds only if it was told to shut down, no client panicked and the supervisor
/// stopped as it should.
pub proof fn success_needs_an_orderly_shutdown(
    exit: RunExitView,
    client_panic: Option<Seq<char>>,
    cleanup: Result<(), Seq<char>>,
)
    ensures
        run_result(exit, client_panic, cleanup) is Ok <==> (exit matches RunExitView::Shutdown(
            result,
        ) && result is Ok) && client_panic is None && cleanup is Ok,
{
}

/// Rest is confirmed only after nothing went wrong: no client panicked, and nothing came
/// between.
pub proof fn rest_is_confirmed_only_undisturbed(drain: DrainView)
    ensures
        conclusion(drain) is Acknowledge <==> drain.drain_panic is None && drain.interruption is None,
{
}

/// What has gone wrong during a drain stays known, whatever happens later.
pub proof fn drains_forget_nothing(drain: DrainView, event: DrainEvent)
    ensures
        drain.interruption is Some ==> drain_after(drain, event).interruption
            == drain.interruption,
        drain.drain_panic is Some ==> drain_after(drain, event).drain_panic == drain.drain_panic,
        drain.shutdown_result is Some ==> drain_after(drain, event).shutdown_result
            == drain.shutdown_result,
{
}

/// What a runtime does is decided by what happens: it ends with its supervisor, on a shutdown, on
/// a fatal failure and on a lost client task; it serves a client that got a permit and drops one
/// that got none.
pub proof fn runtimes_do_what_happens_asks(event: RuntimeEvent)
    ensures
        ({
            let step = runtime_step(event);
            &&& event matches RuntimeEvent::SupervisorEnded(end) ==> step == RuntimeStepView::Exit(
                RunExitView::Supervisor(end@),
            )
            &&& event matches RuntimeEvent::ShutdownRequested(result) ==> step
                == RuntimeStepView::Exit(RunExitView::Shutdown(outcome(result)))
            &&& event matches RuntimeEvent::FatalChanged { open, raised } ==> (step
                == RuntimeStepView::Exit(RunExitView::Fatal) <==> open && raised) && (step
                == RuntimeStepView::Continue <==> !(open && raised))
            &&& event is QuiescenceRequested <==> step == RuntimeStepView::Drain
            &&& event == RuntimeEvent::Accepted(ConnectionPermit::Granted) <==> step
                == RuntimeStepView::ServeClient
            &&& event == RuntimeEvent::Accepted(ConnectionPermit::NoPermits) <==> step
                == RuntimeStepView::DropClient
            &&& event == RuntimeEvent::Accepted(ConnectionPermit::Closed) ==> step
                == RuntimeStepView::Exit(
                RunExitView::Shutdown(Err("connection limiter unexpectedly closed"@)),
            )
            &&& event is AcceptFailed <==> step == RuntimeStepView::PauseAccepting
            &&& event matches RuntimeEvent::ClientEnded(ClientEnd::Panicked(text)) ==> step
                == RuntimeStepView::Exit(RunExitView::ClientTaskPanic(text@))
            &&& event matches RuntimeEvent::ClientEnded(ClientEnd::Cancelled(text)) ==> step
                == RuntimeStepView::Exit(RunExitView::ClientTaskPanic(text@))
            &&& event == RuntimeEvent::ClientEnded(ClientEnd::Finished) ==> step
                == RuntimeStepView::Continue
            &&& event is QuiescenceClosed ==> step == RuntimeStepView::Continue
        }),
{
}

/// While it comes to rest, a runtime notes the first panic of a client, the first shutdown, and the
/// first interruption: the end of its supervisor, a fatal failure, or that nobody waits for the
/// rest any more.
pub proof fn drains_note_what_happens(drain: DrainView, event: DrainEvent)
    requires
        drain.interruption is None,
    ensures
        ({
            let later = drain_after(drain, event);
            &&& event matches DrainEvent::SupervisorEnded(end) ==> later.interruption == Some(
                RunExitView::Supervisor(end@),
            )
            &&& event matches DrainEvent::ShutdownRequested(result) ==> later.interruption is None
                && (drain.shutdown_result is None ==> later.shutdown_result == Some(
                outcome(result),
            ))
            &&& event matches DrainEvent::FatalChanged { open, raised } ==> (later.interruption
                == Some(RunExitView::Fatal) <==> open && raised) && (later.interruption is None
                <==> open && !raised)
            &&& event matches DrainEvent::AcknowledgementClosed ==> (
            later.interruption matches Some(RunExitView::QuiescenceFailure(text)) && text
                == "runtime quiescence acknowledgement receiver disappeared"@)
            &&& event matches DrainEvent::ClientEnded(ClientEnd::Panicked(text)) ==> (
            drain.drain_panic is None ==> later.drain_panic == Some(
                "client task panicked during runtime quiescence"@ + ": "@ + text@,
            ) && drain_raises(drain, event))
            &&& event matches DrainEvent::ClientEnded(ended) ==> later.interruption is None && (!(
            ended is Panicked) ==> later == drain && !drain_raises(drain, event))
        }),
{
}

/// A panic during the rest is what the rest ends with; otherwise the interruption; otherwise the
/// rest is confirmed, with the shutdown that came meanwhile.
pub proof fn rests_end_with_what_was_noted(drain: DrainView)
    ensures
        drain.drain_panic matches Some(text) ==> conclusion(drain) == DrainConclusionView::Fail(
            text,
        ),
        drain.drain_panic is None ==> (drain.interruption matches Some(exit) ==> conclusion(drain)
            == DrainConclusionView::Exit(exit)),
        drain.drain_panic is None && drain.interruption is None ==> conclusion(drain)
            == DrainConclusionView::Acknowledge(drain.shutdown_result),
{
}

/// Of two failures both are told, the later one in front; one alone is told as it is.
pub proof fn no_failure_is_lost(
    primary: Seq<char>,
    additional: Seq<char>,
)
    ensures
        combined(Ok(()), None) == Ok::<(), Seq<char>>(()),
        combined(Err(primary), None) == Err::<(), Seq<char>>(primary),
        combined(Ok(()), Some(additional)) == Err::<(), Seq<char>>(additional),
        combined(Err(primary), Some(additional)) matches Err(text) && text
            == "another runtime failure occurred"@ + ": "@ + additional + (": "@ + primary),
        shutdown_finished(Err(primary), Ok(())) == Err::<(), Seq<char>>(primary),
        shutdown_finished(Ok(()), Err(additional)) == Err::<(), Seq<char>>(additional),
        shutdown_finished(Ok(()), Ok(())) == Ok::<(), Seq<char>>(()),
        shutdown_finished(Err(primary), Err(additional)) matches Err(text) && text
            == "runtime cleanup also failed"@ + ": "@ + additional + (": "@ + primary),
{
    assert("another runtime failure occurred"@ + ": "@ + additional + (": "@ + primary)
        =~= "another runtime failure occurred"@ + ": "@ + additional + ": "@ + primary);
    assert("runtime cleanup also failed"@ + ": "@ + additional + (": "@ + primary)
        =~= "runtime cleanup also failed"@ + ": "@ + additional + ": "@ + primary);
}

/// A supervisor that is gone is not stopped again; after a fatal failure it is waited for; after
/// anything else it is stopped.
pub proof fn supervisors_are_stopped_once(exit: RunExitView, client_panic: Option<Seq<char>>)
    ensures
        finish_step(exit, client_panic) is Done <==> exit is Supervisor,
        finish_step(exit, client_panic) is AwaitSupervisor <==> exit is Fatal,
        finish_step(exit, client_panic) is StopSupervisor <==> exit is Shutdown || exit
            is ClientTaskPanic || exit is QuiescenceFailure,
        exit matches RunExitView::Shutdown(result) ==> finish_step(exit, None)
            == FinishStepView::StopSupervisor(result),
        exit matches RunExitView::QuiescenceFailure(text) ==> finish_step(exit, client_panic)
            == FinishStepView::StopSupervisor(Err(text)),
        exit matches RunExitView::Supervisor(end) ==> (finish_step(
            exit,
            client_panic,
        ) matches FinishStepView::Done(result) && result is Err),
        exit matches RunExitView::ClientTaskPanic(text) ==> (finish_step(
            exit,
            client_panic,
        ) matches FinishStepView::StopSupervisor(result) && result is Err),
{
}

/// A supervisor has stopped well exactly if it finished well in time; after a fatal failure the
/// runtime fails in any case.
pub proof fn waits_end_well_in_time(wait: SupervisorWait, cleanup: Result<(), Seq<char>>)
    ensures
        waited(wait) is Ok <==> (wait matches SupervisorWait::Finished(result) && result is Ok),
        wait matches SupervisorWait::Finished(result) ==> waited(wait) == outcome(result),
        fatal_finished(cleanup) is Err,
{
}

/// How something ended is seen as it is.
pub proof fn ends_are_seen_as_they_are(end: SupervisorEnd, exit: RunExit)
    ensures
        end is Panicked <==> end@ is Panicked,
        end is Failed <==> end@ is Failed,
        end is Finished <==> end@ is Finished,
        end matches SupervisorEnd::Panicked(text) ==> end@ == SupervisorEndView::Panicked(text@),
        end matches SupervisorEnd::Failed(text) ==> end@ == SupervisorEndView::Failed(text@),
        exit is Fatal <==> exit@ is Fatal,
        exit matches RunExit::Shutdown(result) ==> exit@ == RunExitView::Shutdown(outcome(result)),
        exit matches RunExit::Supervisor(end) ==> exit@ == RunExitView::Supervisor(end@),
        exit matches RunExit::ClientTaskPanic(text) ==> exit@ == RunExitView::ClientTaskPanic(
            text@,
        ),
        exit matches RunExit::QuiescenceFailure(text) ==> exit@ == RunExitView::QuiescenceFailure(
            text@,
        ),
{
}

/// A runtime tells how its supervisor ended.
pub proof fn ends_of_supervisors_are_told(text: Seq<char>)
    ensures
        finish_step(RunExitView::Supervisor(SupervisorEndView::Failed(text)), None)
            == FinishStepView::Done(Err("server supervisor failed"@ + ": "@ + text)),
        finish_step(RunExitView::Supervisor(SupervisorEndView::Finished), None)
            == FinishStepView::Done(Err("server supervisor stopped unexpectedly"@)),
        finish_step(RunExitView::Supervisor(SupervisorEndView::Panicked(text)), None)
            == FinishStepView::Done(
            Err("supervisor panicked; cleanup of this runtime is uncertain"@ + ": "@ + text),
        ),
        finish_step(RunExitView::ClientTaskPanic(text), None) == FinishStepView::StopSupervisor(
            Err("client task panicked"@ + ": "@ + text),
        ),
        fatal_finished(Err(text)) == Err::<(), Seq<char>>(
            "server supervisor failed after fatal escalation"@ + ": "@ + text,
        ),
{
}

/// What is done next is seen as it is.
pub proof fn steps_are_seen_as_they_are(
    step: RuntimeStep,
    drain: Drain,
    conclusion: DrainConclusion,
    finish: FinishStep,
)
    ensures
        step is Continue <==> step@ is Continue,
        step is PauseAccepting <==> step@ is PauseAccepting,
        step is DropClient <==> step@ is DropClient,
        step is ServeClient <==> step@ is ServeClient,
        step is Drain <==> step@ is Drain,
        step matches RuntimeStep::Exit(exit) ==> step@ == RuntimeStepView::Exit(exit@),
        drain.interruption matches Some(exit) ==> drain@.interruption == Some(exit@),
        drain.interruption is None ==> drain@.interruption is None,
        drain.shutdown_result matches Some(result) ==> drain@.shutdown_result == Some(
            outcome(result),
        ),
        drain.shutdown_result is None ==> drain@.shutdown_result is None,
        drain@.drain_panic == maybe_text(drain.drain_panic),
        conclusion matches DrainConclusion::Fail(text) ==> conclusion@ == DrainConclusionView::Fail(
            text@,
        ),
        conclusion matches DrainConclusion::Exit(exit) ==> conclusion@ == DrainConclusionView::Exit(
            exit@,
        ),
        conclusion matches DrainConclusion::Acknowledge { shutdown: Some(result) } ==> conclusion@
            == DrainConclusionView::Acknowledge(Some(outcome(result))),
        conclusion matches DrainConclusion::Acknowledge { shutdown: None } ==> conclusion@
            == DrainConclusionView::Acknowledge(None),
        finish matches FinishStep::Done(result) ==> finish@ == FinishStepView::Done(
            outcome(result),
        ),
        finish matches FinishStep::StopSupervisor(result) ==> finish@
            == FinishStepView::StopSupervisor(outcome(result)),
        finish is AwaitSupervisor ==> finish@ is AwaitSupervisor,
{
}

/// The first panic of a client is kept and raises the alarm; later ones, and clients that just
/// ended, do neither.
pub proof fn the_first_panic_raises_the_alarm(
    known: Option<Seq<char>>,
    ended: ClientEnd,
    context: Seq<char>,
)
    ensures
        ended matches ClientEnd::Panicked(text) ==> (known is None ==> panic_after(
            known,
            ended,
            context,
        ) == (Some(context + ": "@ + text@), true)),
        known is Some || !(ended is Panicked) ==> panic_after(known, ended, context) == (
            known,
            false,
        ),
{
}

/// A rest that is interrupted for want of a signal or of somebody who waits for it raises the
/// alarm, once.
pub proof fn lost_signals_raise_the_alarm(drain: DrainView, event: DrainEvent)
    ensures
        event is AcknowledgementClosed ==> (drain_raises(drain, event)
            <==> drain.interruption is None),
        event matches DrainEvent::FatalChanged { open, raised } ==> (drain_raises(drain, event)
            <==> drain.interruption is None && !open),
        event is SupervisorEnded || event is ShutdownRequested ==> !drain_raises(drain, event),
{
}

} // verus!
