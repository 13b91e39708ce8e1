//! Telling a process to stop, ending it by force, and seeing it gone.

use vstd::prelude::*;

use crate::text::{in_context, maybe_text, outcome, with_context};

verus! {

/// Whether a server was told to stop.
#[derive(Clone, Copy, Debug, PartialEq, Eq, Structural)]
pub enum GracefulStopDelivery {
    NotSent,
    Sent,
    /// It may or may not have been told.
    Uncertain,
}

/// How telling a server to stop through its remote console went.
#[derive(Clone, Copy, Debug, PartialEq, Eq, Structural)]
pub enum RconStopAttempt {
    NotConfigured,
    SessionFailed,
    SessionTimedOut,
    Delivered,
    DeliveryFailed,
    DeliveryTimedOut,
}

/// That the stop command may have reached the server through its remote console.
pub open spec fn may_have_been_told(attempt: RconStopAttempt) -> bool {
    attempt == RconStopAttempt::Delivered || attempt == RconStopAttempt::DeliveryFailed || attempt
        == RconStopAttempt::DeliveryTimedOut
}

/// Whether to tell the server through its own console: only if it cannot have been told
/// already.
pub fn console_stop_needed(attempt: RconStopAttempt) -> (needed: bool)
    ensures
        needed == !may_have_been_told(attempt),
{
    match attempt {
        RconStopAttempt::NotConfigured
        | RconStopAttempt::SessionFailed
        | RconStopAttempt::SessionTimedOut => true,
        RconStopAttempt::Delivered
        | RconStopAttempt::DeliveryFailed
        | RconStopAttempt::DeliveryTimedOut => false,
    }
}

/// Whether the server was told to stop, by the remote console or by its own.
pub fn graceful_stop_delivery(attempt: RconStopAttempt, console_sent: bool) -> (delivery:
    GracefulStopDelivery)
    ensures
        delivery == (if attempt == RconStopAttempt::Delivered {
            GracefulStopDelivery::Sent
        } else if may_have_been_told(attempt) {
            GracefulStopDelivery::Uncertain
        } else if console_sent {
            GracefulStopDelivery::Sent
        } else {
            GracefulStopDelivery::NotSent
        }),
{
    match attempt {
        RconStopAttempt::Delivered => GracefulStopDelivery::Sent,
        RconStopAttempt::DeliveryFailed
        | RconStopAttempt::DeliveryTimedOut => GracefulStopDelivery::Uncertain,
        RconStopAttempt::NotConfigured
        | RconStopAttempt::SessionFailed
        | RconStopAttempt::SessionTimedOut => if console_sent {
            GracefulStopDelivery::Sent
        } else {
            GracefulStopDelivery::NotSent
        },
    }
}

/// How a wait for the process to be gone ended.
#[derive(Debug)]
pub enum ReapOutcome {
    Exited,
    Failed(String),
    TimedOut,
}

/// What the wait for a server that was told to stop leads to.
#[derive(Debug)]
pub enum GracefulWait {
    /// The process is gone.
    Done,
    /// It has to be terminated; an error of the wait is kept.
    Terminate { wait_error: Option<String> },
}

/// Whether to wait for the server to stop on its own.
pub fn waits_for_graceful_stop(delivery: GracefulStopDelivery) -> (waits: bool)
    ensures
        waits == (delivery != GracefulStopDelivery::NotSent),
{
    delivery != GracefulStopDelivery::NotSent
}

/// Takes the end of the wait for a server that was told to stop.
pub fn graceful_wait_result(outcome: ReapOutcome) -> (wait: GracefulWait)
    ensures
        wait == (match outcome {
            ReapOutcome::Exited => GracefulWait::Done,
            ReapOutcome::Failed(error) => GracefulWait::Terminate { wait_error: Some(error) },
            ReapOutcome::TimedOut => GracefulWait::Terminate { wait_error: None },
        }),
{
    match outcome {
        ReapOutcome::Exited => GracefulWait::Done,
        ReapOutcome::Failed(error) => GracefulWait::Terminate { wait_error: Some(error) },
        ReapOutcome::TimedOut => GracefulWait::Terminate { wait_error: None },
    }
}

/// The result of ending a process by force: a failed wait counts more than a failed termination,
/// and that more than an earlier failed wait.
pub fn stop_and_reap(
    reaped: ReapOutcome,
    termination: Result<(), String>,
    wait_error: Option<String>,
    forced: bool,
) -> (result: Result<(), String>)
    ensures
        outcome(result) == reap_result(
            reaped,
            outcome(termination),
            maybe_text(wait_error),
            forced,
        ),
{
    match reaped {
        ReapOutcome::Failed(error) => {
            return Err(with_context("failed to reap the server process", error.as_str()));
        },
        ReapOutcome::TimedOut => {
            return Err(
                if forced {
                    "server process did not exit after forced termination".to_owned()
                } else {
                    "server process did not exit after termination".to_owned()
                },
            );
        },
        ReapOutcome::Exited => {},
    }
    match termination {
        Err(error) => Err(error),
        Ok(_) => match wait_error {
            Some(error) => Err(
                with_context("failed while waiting for graceful server shutdown", error.as_str()),
            ),
            None => Ok(()),
        },
    }
}

/// Stopping a process and seeing it gone, by what is to be done next.
pub enum StopSequence {
    /// Tell the server to stop through its remote console.
    TellRcon,
    /// Tell it through its own console, after what came of the remote one.
    TellConsole { attempt: RconStopAttempt },
    /// Wait for it to stop on its own.
    AwaitExit,
    /// End it by force. The error of an earlier wait is kept.
    Terminate { wait_error: Option<String>, forced: bool },
    /// Wait for it to be gone.
    Reap { wait_error: Option<String>, termination: Result<(), String>, forced: bool },
    Finished(Result<(), String>),
}

/// A [`StopSequence`] with its texts as sequences of characters.
pub enum StopSequenceView {
    TellRcon,
    TellConsole { attempt: RconStopAttempt },
    AwaitExit,
    Terminate { wait_error: Option<Seq<char>>, forced: bool },
    Reap { wait_error: Option<Seq<char>>, termination: Result<(), Seq<char>>, forced: bool },
    Finished(Result<(), Seq<char>>),
}

impl View for StopSequence {
    type V = StopSequenceView;

    open spec fn view(&self) -> StopSequenceView {
        match *self {
            StopSequence::TellRcon => StopSequenceView::TellRcon,
            StopSequence::TellConsole { attempt } => StopSequenceView::TellConsole { attempt },
            StopSequence::AwaitExit => StopSequenceView::AwaitExit,
            StopSequence::Terminate { wait_error, forced } => StopSequenceView::Terminate {
                wait_error: maybe_text(wait_error),
                forced,
            },
            StopSequence::Reap { wait_error, termination, forced } => StopSequenceView::Reap {
                wait_error: maybe_text(wait_error),
                termination: outcome(termination),
                forced,
            },
            StopSequence::Finished(result) => StopSequenceView::Finished(outcome(result)),
        }
    }
}

/// What came of the next thing to do.
pub enum StopEvent {
    RconTold(RconStopAttempt),
    ConsoleTold(bool),
    ExitAwaited(ReapOutcome),
    Terminated(Result<(), String>),
    Reaped(ReapOutcome),
}

/// The result of ending a process by force, from the wait for it to be gone.
pub open spec fn reap_result(
    reaped: ReapOutcome,
    termination: Result<(), Seq<char>>,
    wait_error: Option<Seq<char>>,
    forced: bool,
) -> Result<(), Seq<char>> {
    match reaped {
        ReapOutcome::Failed(error) => Err(
            in_context("failed to reap the server process"@, error@),
        ),
        ReapOutcome::TimedOut => Err(
            if forced {
                "server process did not exit after forced termination"@
            } else {
                "server process did not exit after termination"@
            },
        ),
        ReapOutcome::Exited => match (termination, wait_error) {
            (Err(error), _) => Err(error),
            (Ok(_), Some(error)) => Err(
                in_context("failed while waiting for graceful server shutdown"@, error),
            ),
            (Ok(_), None) => Ok(()),
        },
    }
}

/// A sequence after an event. An event of something else than what was to be done changes
/// nothing.
pub open spec fn stop_advanced(sequence: StopSequenceView, event: StopEvent) -> StopSequenceView {
    match (sequence, event) {
        (StopSequenceView::TellRcon, StopEvent::RconTold(attempt)) => {
            if may_have_been_told(attempt) {
                StopSequenceView::AwaitExit
            } else {
                StopSequenceView::TellConsole { attempt }
            }
        },
        (StopSequenceView::TellConsole { attempt }, StopEvent::ConsoleTold(sent)) => {
            if sent || may_have_been_told(attempt) {
                StopSequenceView::AwaitExit
            } else {
                StopSequenceView::Terminate { wait_error: None, forced: false }
            }
        },
        (StopSequenceView::AwaitExit, StopEvent::ExitAwaited(exit)) => match exit {
            ReapOutcome::Exited => StopSequenceView::Finished(Ok(())),
            ReapOutcome::Failed(error) => StopSequenceView::Terminate {
                wait_error: Some(error@),
                forced: false,
            },
            ReapOutcome::TimedOut => StopSequenceView::Terminate {
                wait_error: None,
                forced: false,
            },
        },
        (
            StopSequenceView::Terminate { wait_error, forced },
            StopEvent::Terminated(termination),
        ) => StopSequenceView::Reap { wait_error, termination: outcome(termination), forced },
        (
            StopSequenceView::Reap { wait_error, termination, forced },
            StopEvent::Reaped(reaped),
        ) => StopSequenceView::Finished(reap_result(reaped, termination, wait_error, forced)),
        _ => sequence,
    }
}

impl StopSequence {
    /// Stopping a server that is told to stop first.
    pub fn graceful(rcon_configured: bool) -> (sequence: StopSequence)
        ensures
            sequence@ == (if rcon_configured {
                StopSequenceView::TellRcon
            } else {
                StopSequenceView::TellConsole { attempt: RconStopAttempt::NotConfigured }
            }),
    {
        if rcon_configured {
            StopSequence::TellRcon
        } else {
            StopSequence::TellConsole { attempt: RconStopAttempt::NotConfigured }
        }
    }

    /// Ending a server by force at once.
    pub fn forced() -> (sequence: StopSequence)
        ensures
            sequence@ == (StopSequenceView::Terminate { wait_error: None, forced: true }),
    {
        StopSequence::Terminate { wait_error: None, forced: true }
    }

    /// Takes what came of the next thing to do.
    pub fn advance(self, event: StopEvent) -> (next: StopSequence)
        ensures
            next@ == stop_advanced(self@, event),
    {
        match (self, event) {
            (StopSequence::TellRcon, StopEvent::RconTold(attempt)) => {
                if console_stop_needed(attempt) {
                    StopSequence::TellConsole { attempt }
                } else {
                    StopSequence::AwaitExit
                }
            },
            (StopSequence::TellConsole { attempt }, StopEvent::ConsoleTold(sent)) => {
                if waits_for_graceful_stop(graceful_stop_delivery(attempt, sent)) {
                    StopSequence::AwaitExit
                } else {
                    StopSequence::Terminate { wait_error: None, forced: false }
                }
            },
            (StopSequence::AwaitExit, StopEvent::ExitAwaited(exit)) => match graceful_wait_result(
                exit,
            ) {
                GracefulWait::Done => StopSequence::Finished(Ok(())),
                GracefulWait::Terminate { wait_error } => StopSequence::Terminate {
                    wait_error,
                    forced: false,
                },
            },
            (
                StopSequence::Terminate { wait_error, forced },
                StopEvent::Terminated(termination),
            ) => StopSequence::Reap { wait_error, termination, forced },
            (
                StopSequence::Reap { wait_error, termination, forced },
                StopEvent::Reaped(reaped),
            ) => StopSequence::Finished(stop_and_reap(reaped, termination, wait_error, forced)),
            (sequence, _) => sequence,
        }
    }
}

/// How many things are still to be done at most.
pub open spec fn steps_left(sequence: StopSequenceView) -> nat {
    match sequence {
        StopSequenceView::TellRcon => 5,
        StopSequenceView::TellConsole { .. } => 4,
        StopSequenceView::AwaitExit => 3,
        StopSequenceView::Terminate { .. } => 2,
        StopSequenceView::Reap { .. } => 1,
        StopSequenceView::Finished(_) => 0,
    }
}

/// A stop moves on with every event that it waited for and never goes back: nothing is done
/// twice.
pub proof fn stops_never_go_back(sequence: StopSequenceView, event: StopEvent)
    ensures
        stop_advanced(sequence, event) == sequence || steps_left(stop_advanced(sequence, event))
            < steps_left(sequence),
{
}

/// A stop succeeds only once the process was seen to be gone.
pub proof fn successful_stops_saw_the_end(sequence: StopSequenceView, event: StopEvent)
    requires
        !(sequence is Finished),
        stop_advanced(sequence, event) == StopSequenceView::Finished(Ok(())),
    ensures
        event == StopEvent::ExitAwaited(ReapOutcome::Exited) || event == StopEvent::Reaped(
            ReapOutcome::Exited,
        ),
{
}

/// A server is told to stop through its own console only if the remote one cannot have told it.
pub proof fn servers_are_told_once(sequence: StopSequenceView, event: StopEvent)
    requires
        sequence matches StopSequenceView::TellConsole { attempt } ==> !may_have_been_told(
            attempt,
        ),
    ensures
        stop_advanced(sequence, event) matches StopSequenceView::TellConsole { attempt }
            ==> !may_have_been_told(attempt),
{
}

/// A stop that may have reached the server is waited for; one that cannot have reached it is said
/// on the console. Only a server that was told nothing, or did not end by itself, is ended by
/// force.
pub proof fn stops_go_from_gentle_to_forced(
    attempt: RconStopAttempt,
    sent: bool,
    exit: ReapOutcome,
)
    ensures
        may_have_been_told(attempt) <==> attempt != RconStopAttempt::NotConfigured && attempt
            != RconStopAttempt::SessionFailed && attempt != RconStopAttempt::SessionTimedOut,
        ({
            let told = stop_advanced(StopSequenceView::TellRcon, StopEvent::RconTold(attempt));
            told == (if attempt == RconStopAttempt::Delivered || attempt
                == RconStopAttempt::DeliveryFailed || attempt == RconStopAttempt::DeliveryTimedOut {
                StopSequenceView::AwaitExit
            } else {
                StopSequenceView::TellConsole { attempt }
            })
        }),
        !may_have_been_told(attempt) ==> stop_advanced(
            StopSequenceView::TellConsole { attempt },
            StopEvent::ConsoleTold(sent),
        ) == (if sent {
            StopSequenceView::AwaitExit
        } else {
            StopSequenceView::Terminate { wait_error: None, forced: false }
        }),
        ({
            let waited = stop_advanced(StopSequenceView::AwaitExit, StopEvent::ExitAwaited(exit));
            &&& exit is Exited ==> waited == StopSequenceView::Finished(Ok(()))
            &&& exit is TimedOut ==> waited == (StopSequenceView::Terminate {
                wait_error: None,
                forced: false,
            })
            &&& exit matches ReapOutcome::Failed(error) ==> waited
                == (StopSequenceView::Terminate { wait_error: Some(error@), forced: false })
        }),
{
}

/// A server that was ended by force is waited for in any case; its end is a success exactly if it
/// was seen to exit, the force was applied, and nothing went wrong before.
pub proof fn forced_ends_are_seen(
    wait_error: Option<Seq<char>>,
    termination: Result<(), String>,
    forced: bool,
    reaped: ReapOutcome,
)
    ensures
        stop_advanced(
            StopSequenceView::Terminate { wait_error, forced },
            StopEvent::Terminated(termination),
        ) == (StopSequenceView::Reap { wait_error, termination: outcome(termination), forced }),
        ({
            let seen = stop_advanced(
                StopSequenceView::Reap { wait_error, termination: outcome(termination), forced },
                StopEvent::Reaped(reaped),
            );
            &&& seen is Finished
            &&& seen->Finished_0 is Ok <==> reaped is Exited && termination is Ok
                && wait_error is None
        }),
{
}

/// A stop under way is seen as it is.
pub proof fn stops_are_seen_as_they_are(sequence: StopSequence)
    ensures
        sequence is TellRcon <==> sequence@ is TellRcon,
        sequence is AwaitExit <==> sequence@ is AwaitExit,
        sequence matches StopSequence::TellConsole { attempt } ==> sequence@
            == (StopSequenceView::TellConsole { attempt }),
        sequence matches StopSequence::Terminate { wait_error, forced } ==> sequence@
            == (StopSequenceView::Terminate { wait_error: maybe_text(wait_error), forced }),
        sequence matches StopSequence::Reap { wait_error, termination, forced } ==> sequence@
            == (StopSequenceView::Reap {
            wait_error: maybe_text(wait_error),
            termination: outcome(termination),
            forced,
        }),
        sequence matches StopSequence::Finished(result) ==> sequence@ == StopSequenceView::Finished(
            outcome(result),
        ),
{
}

} // verus!
