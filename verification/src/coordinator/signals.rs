//! The signals that end the daemon.

use vstd::prelude::*;
use vstd::string::StringExecFns;

use crate::text::{in_context, with_context};

use super::failures::{failed, requested, Shutdown};

verus! {

/// How watching for signals ended.
#[derive(Clone, Copy, Debug, PartialEq, Eq, Structural)]
pub enum SignalWatcherExit {
    ShutdownRequested,
    FailureReported,
}

/// How the watcher of signals ended, as its owner sees it.
pub enum WatcherEnd {
    Exited(SignalWatcherExit),
    /// It panicked or was cancelled.
    Lost(String),
}

/// What follows once the watcher has said how its registration went.
#[derive(Clone, Copy, Debug, PartialEq, Eq, Structural)]
pub enum AfterArming {
    /// A signal is there already.
    RequestShutdown,
    Watch,
    Stop,
}

/// How the registration went, and what follows.
pub struct Arming {
    pub acknowledgement: Result<(), String>,
    pub next: AfterArming,
}

/// Registers for signals. `terminate` is how registering for the termination signal went, where
/// there is one; `interrupt` is what came of looking at the interrupt signal at once, if it had
/// anything to say.
pub fn arm(terminate: Result<(), String>, interrupt: Option<Result<(), String>>) -> (arming: Arming)
    ensures
        match terminate {
            Err(error) => arming.next == AfterArming::Stop && (
            arming.acknowledgement matches Err(text) && text@ == in_context(
                "failed to register the Unix SIGTERM listener"@,
                error@,
            )),
            Ok(_) => match interrupt {
                Some(Err(error)) => arming.next == AfterArming::Stop && (
                arming.acknowledgement matches Err(text) && text@ == in_context(
                    "failed to register the Ctrl+C listener"@,
                    error@,
                )),
                Some(Ok(_)) => arming.next == AfterArming::RequestShutdown
                    && arming.acknowledgement is Ok,
                None => arming.next == AfterArming::Watch && arming.acknowledgement is Ok,
            },
        },
{
    if let Err(error) = terminate {
        return Arming {
            acknowledgement: Err(
                with_context("failed to register the Unix SIGTERM listener", error.as_str()),
            ),
            next: AfterArming::Stop,
        };
    }
    match interrupt {
        Some(Err(error)) => Arming {
            acknowledgement: Err(
                with_context("failed to register the Ctrl+C listener", error.as_str()),
            ),
            next: AfterArming::Stop,
        },
        Some(Ok(_)) => Arming { acknowledgement: Ok(()), next: AfterArming::RequestShutdown },
        None => Arming { acknowledgement: Ok(()), next: AfterArming::Watch },
    }
}

/// Goes on after the watcher has said how its registration went; `delivered` says whether
/// anybody listened. `None` means that it watches.
pub fn armed(next: AfterArming, delivered: bool, shutdown: &mut Shutdown) -> (exit: Option<
    SignalWatcherExit,
>)
    ensures
        exit == (match next {
            AfterArming::RequestShutdown => Some(SignalWatcherExit::ShutdownRequested),
            AfterArming::Watch => if delivered {
                None
            } else {
                Some(SignalWatcherExit::FailureReported)
            },
            AfterArming::Stop => Some(SignalWatcherExit::FailureReported),
        }),
        final(shutdown)@ == (if next == AfterArming::RequestShutdown && delivered {
            requested(old(shutdown)@)
        } else {
            old(shutdown)@
        }),
{
    match next {
        AfterArming::RequestShutdown => {
            if delivered {
                shutdown.request();
            }
            Some(SignalWatcherExit::ShutdownRequested)
        },
        AfterArming::Watch => {
            if delivered {
                None
            } else {
                Some(SignalWatcherExit::FailureReported)
            }
        },
        AfterArming::Stop => Some(SignalWatcherExit::FailureReported),
    }
}

/// What the owner of the watcher makes of its word; `None` means that none came.
pub fn arming_result(received: Option<Result<(), String>>) -> (result: Result<(), String>)
    ensures
        match received {
            Some(word) => result == word,
            None => result matches Err(text) && text@
                == "signal watcher stopped before confirming registration"@,
        },
{
    match received {
        Some(word) => word,
        None => Err("signal watcher stopped before confirming registration".to_owned()),
    }
}

/// How the watcher ends, and whether it reports a failure.
#[derive(Clone, Copy, Debug, PartialEq, Eq, Structural)]
pub struct WatchedSignal {
    pub exit: SignalWatcherExit,
    pub report_failure: bool,
}

/// Takes a signal, or the failure to listen for it.
pub fn signal_result(result: Result<(), String>, name: &str, shutdown: &mut Shutdown) -> (watched:
    WatchedSignal)
    ensures
        match result {
            Ok(_) => {
                &&& watched.exit == SignalWatcherExit::ShutdownRequested
                &&& !watched.report_failure
                &&& final(shutdown)@ == requested(old(shutdown)@)
            },
            Err(error) => {
                &&& watched.exit == SignalWatcherExit::FailureReported
                &&& watched.report_failure
                &&& final(shutdown)@ == failed(
                    old(shutdown)@,
                    in_context(name@ + " listener failed"@, error@),
                )
            },
        },
{
    match result {
        Ok(_) => {
            shutdown.request();
            WatchedSignal { exit: SignalWatcherExit::ShutdownRequested, report_failure: false }
        },
        Err(error) => {
            let mut what = name.to_owned();
            what.append(" listener failed");
            shutdown.fail(with_context(what.as_str(), error.as_str()));
            WatchedSignal { exit: SignalWatcherExit::FailureReported, report_failure: true }
        },
    }
}

/// Takes the termination signal; `received` is false if its listener closed instead.
pub fn terminate_result(received: bool, shutdown: &mut Shutdown) -> (watched: WatchedSignal)
    ensures
        if received {
            &&& watched.exit == SignalWatcherExit::ShutdownRequested
            &&& !watched.report_failure
            &&& final(shutdown)@ == requested(old(shutdown)@)
        } else {
            &&& watched.exit == SignalWatcherExit::FailureReported
            &&& watched.report_failure
            &&& final(shutdown)@ == failed(
                old(shutdown)@,
                "Unix SIGTERM listener closed unexpectedly"@,
            )
        },
{
    if received {
        shutdown.request();
        WatchedSignal { exit: SignalWatcherExit::ShutdownRequested, report_failure: false }
    } else {
        shutdown.fail("Unix SIGTERM listener closed unexpectedly".to_owned());
        WatchedSignal { exit: SignalWatcherExit::FailureReported, report_failure: true }
    }
}

} // verus!
