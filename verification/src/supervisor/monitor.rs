//! Watching a running server: when it counts as stable, and when it has been idle long enough
//! to be stopped.
//!
//! A server is stopped for idleness only while this daemon holds its backend for itself, only
//! if nothing has used it for the whole idle time, and, where a console is configured, only
//! after the console has just said once more that nobody plays.

use vstd::prelude::*;

use crate::backend_use::{BackendCycle, CurrentCycleActivity};
use crate::text::decimal;

use super::admission::{MutationEffect, StoppingReason};
use super::control::SupervisorControl;
use super::lifecycle::{LifecycleState, Nanos, ServerPhase};
use super::players::{observed_player_count, player_count, told_counts_are_read};
use super::readiness::ChildPoll;

verus! {

/// How long a server has to run before its earlier failures are forgotten.
pub const STABILITY_WINDOW: Nanos = 60_000_000_000;

/// How players are counted besides the sessions that are proxied.
#[derive(Clone, Copy, Debug, PartialEq, Eq, Structural)]
pub enum PlayerInspection {
    /// They are not: every player comes through the proxy.
    ProxyOnly,
    /// By asking the console.
    ConfiguredRcon {
        /// Whether a console session is open.
        connected: bool,
        next_poll: Nanos,
        /// Since when the console has said without a break that nobody plays.
        zero_anchor: Option<Nanos>,
    },
}

impl PlayerInspection {
    /// The inspection at its beginning.
    pub fn from_config(rcon_configured: bool, now: Nanos) -> (inspection: PlayerInspection)
        ensures
            inspection == (if rcon_configured {
                PlayerInspection::ConfiguredRcon {
                    connected: false,
                    next_poll: now,
                    zero_anchor: None,
                }
            } else {
                PlayerInspection::ProxyOnly
            }),
    {
        if rcon_configured {
            PlayerInspection::ConfiguredRcon { connected: false, next_poll: now, zero_anchor: None }
        } else {
            PlayerInspection::ProxyOnly
        }
    }

    /// When the console has to be asked next.
    pub open spec fn poll_due_at(self) -> Option<Nanos> {
        match self {
            PlayerInspection::ProxyOnly => None,
            PlayerInspection::ConfiguredRcon { next_poll, .. } => Some(next_poll),
        }
    }
}

/// What is left of an owned process that is no longer running.
#[derive(Clone, Copy, Debug, PartialEq, Eq, Structural)]
pub enum ChildEnd {
    Exited,
    WaitFailed,
}

/// That the process is not running any more, and how it ended.
pub open spec fn child_end(child: ChildPoll) -> Option<ChildEnd> {
    match child {
        ChildPoll::Running => None,
        ChildPoll::Exited => Some(ChildEnd::Exited),
        ChildPoll::WaitFailed => Some(ChildEnd::WaitFailed),
    }
}

/// How the process ended, if it did.
pub fn end_of_child(child: ChildPoll) -> (end: Option<ChildEnd>)
    ensures
        end == child_end(child),
{
    match child {
        ChildPoll::Running => None,
        ChildPoll::Exited => Some(ChildEnd::Exited),
        ChildPoll::WaitFailed => Some(ChildEnd::WaitFailed),
    }
}

/// What watching a running server leads to.
#[derive(Clone, Copy, Debug, PartialEq, Eq, Structural)]
pub enum RunningMonitorOutcome {
    Continue,
    /// The server has been idle long enough and is being stopped.
    Committed,
    Shutdown,
    ChildWait(ChildEnd),
    ExplicitMutation,
}

/// The watch over one cycle.
#[derive(Clone, Copy, Debug, PartialEq, Eq, Structural)]
pub struct RunningMonitorState {
    pub cycle: BackendCycle,
    pub player_inspection: PlayerInspection,
    pub stable_at: Nanos,
    pub stability_pending: bool,
}

/// What can happen while a running server is watched.
#[derive(Clone, Copy, Debug, PartialEq, Eq, Structural)]
pub enum MonitorEvent {
    Shutdown,
    ChildEnded(ChildEnd),
    Mutation(MutationEffect),
    WakeClosed,
    Wake,
    /// The server has run for the stability window; what its process did meanwhile.
    StabilityDue(ChildPoll),
    /// The use of the backend changed, or a moment came that was waited for.
    Stirred,
}

/// What to do next with a running server.
#[derive(Clone, Copy, Debug, PartialEq, Eq, Structural)]
pub enum MonitorStep {
    Shutdown,
    /// The idle time is over: try to stop the server.
    AttemptIdleStop { anchor: Nanos },
    /// Ask the console.
    PollPlayers,
    /// Wait for an event, or for one of these moments.
    Wait { poll_at: Option<Nanos>, idle_at: Option<Nanos>, stable_at: Option<Nanos> },
}

/// That a moment `length` after `anchor` has come.
pub open spec fn elapsed(anchor: Nanos, length: Nanos, now: Nanos) -> bool {
    now >= anchor + length
}

/// Whether a moment `length` after `anchor` has come.
pub fn has_elapsed(anchor: Nanos, length: Nanos, now: Nanos) -> (over: bool)
    ensures
        over == elapsed(anchor, length, now),
{
    now >= anchor && now - anchor >= length
}

/// The later of two moments.
pub open spec fn later(left: Nanos, right: Nanos) -> Nanos {
    if left >= right {
        left
    } else {
        right
    }
}

impl RunningMonitorState {
    /// Since when the server has been idle: since neither a proxied session nor, where a
    /// console is configured, a player was there. Nothing is known for another cycle.
    pub open spec fn idle_anchor(self, activity: Option<CurrentCycleActivity>) -> Option<Nanos> {
        match activity {
            Some(snapshot) => if snapshot.cycle != self.cycle {
                None
            } else {
                match (snapshot.idle_since(), self.player_inspection) {
                    (None, _) => None,
                    (Some(since), PlayerInspection::ProxyOnly) => Some(since),
                    (Some(since), PlayerInspection::ConfiguredRcon { zero_anchor, .. }) => {
                        match zero_anchor {
                            None => None,
                            Some(zero) => Some(later(since, zero)),
                        }
                    },
                }
            },
            None => None,
        }
    }

    /// The watch at its beginning: a server that failed before has to prove itself.
    pub fn new(
        cycle: BackendCycle,
        player_inspection: PlayerInspection,
        lifecycle: LifecycleState,
    ) -> (state: RunningMonitorState)
        requires
            lifecycle.running_cycle() == Some(cycle),
            lifecycle.phase_started_at + STABILITY_WINDOW <= Nanos::MAX,
        ensures
            state == (RunningMonitorState {
                cycle,
                player_inspection,
                stable_at: (lifecycle.phase_started_at + STABILITY_WINDOW) as Nanos,
                stability_pending: lifecycle.failure_streak > 0,
            }),
            state.stable_at == lifecycle.phase_started_at + 60_000_000_000,
    {
        RunningMonitorState {
            cycle,
            player_inspection,
            stable_at: lifecycle.phase_started_at + STABILITY_WINDOW,
            stability_pending: lifecycle.failure_streak > 0,
        }
    }

    /// Since when the server has been idle, if it is.
    pub fn effective_idle_anchor(&self, activity: Option<CurrentCycleActivity>) -> (anchor: Option<
        Nanos,
    >)
        ensures
            anchor == self.idle_anchor(activity),
    {
        match activity {
            None => None,
            Some(snapshot) => {
                if snapshot.cycle() != self.cycle {
                    return None;
                }
                match snapshot.proxy_idle_anchor() {
                    None => None,
                    Some(proxy_anchor) => match self.player_inspection {
                        PlayerInspection::ProxyOnly => Some(proxy_anchor),
                        PlayerInspection::ConfiguredRcon { zero_anchor, .. } => match zero_anchor {
                            None => None,
                            Some(zero) => Some(
                                if proxy_anchor >= zero {
                                    proxy_anchor
                                } else {
                                    zero
                                },
                            ),
                        },
                    },
                }
            },
        }
    }

    /// What to do next. A due idle stop comes before a due question to the console.
    pub fn advance_running_monitor(
        &self,
        shutdown_due: bool,
        activity: Option<CurrentCycleActivity>,
        idle_timeout: Nanos,
        now: Nanos,
    ) -> (step: MonitorStep)
        requires
            self.idle_anchor(activity) matches Some(anchor) ==> anchor + idle_timeout
                <= Nanos::MAX,
        ensures
            step == ({
                let anchor = self.idle_anchor(activity);
                let poll_at = self.player_inspection.poll_due_at();
                if shutdown_due {
                    MonitorStep::Shutdown
                } else if anchor is Some && elapsed(anchor->0, idle_timeout, now) {
                    MonitorStep::AttemptIdleStop { anchor: anchor->0 }
                } else if poll_at is Some && now >= poll_at->0 {
                    MonitorStep::PollPlayers
                } else {
                    MonitorStep::Wait {
                        poll_at,
                        idle_at: match anchor {
                            Some(since) => Some((since + idle_timeout) as Nanos),
                            None => None,
                        },
                        stable_at: if self.stability_pending {
                            Some(self.stable_at)
                        } else {
                            None
                        },
                    }
                }
            }),
    {
        if shutdown_due {
            return MonitorStep::Shutdown;
        }
        let effective_anchor = self.effective_idle_anchor(activity);
        let mut idle_at: Option<Nanos> = None;
        if let Some(anchor) = effective_anchor {
            if now >= anchor + idle_timeout {
                return MonitorStep::AttemptIdleStop { anchor };
            }
            idle_at = Some(anchor + idle_timeout);
        }
        let next_poll = match self.player_inspection {
            PlayerInspection::ProxyOnly => None,
            PlayerInspection::ConfiguredRcon { next_poll, .. } => Some(next_poll),
        };
        if let Some(deadline) = next_poll {
            if now >= deadline {
                return MonitorStep::PollPlayers;
            }
        }
        MonitorStep::Wait {
            poll_at: next_poll,
            idle_at,
            stable_at: if self.stability_pending {
                Some(self.stable_at)
            } else {
                None
            },
        }
    }

    /// Takes an event while the server is watched, polled or about to be stopped. `None` goes
    /// on with what was being done.
    pub fn event(&mut self, control: &mut SupervisorControl, event: MonitorEvent) -> (outcome:
        Option<RunningMonitorOutcome>)
        requires
            old(control).valid(),
            event is StabilityDue ==> old(control).lifecycle.phase == ServerPhase::Running,
        ensures
            final(control).valid(),
            final(control).lifecycle.may_follow(old(control).lifecycle),
            outcome == (match event {
                MonitorEvent::Shutdown | MonitorEvent::WakeClosed => Some(
                    RunningMonitorOutcome::Shutdown,
                ),
                MonitorEvent::ChildEnded(end) => Some(RunningMonitorOutcome::ChildWait(end)),
                MonitorEvent::Mutation(MutationEffect::StopOwned) => Some(
                    RunningMonitorOutcome::ExplicitMutation,
                ),
                MonitorEvent::StabilityDue(child) => match child_end(child) {
                    Some(end) => Some(RunningMonitorOutcome::ChildWait(end)),
                    None => None,
                },
                _ => None,
            }),
            *final(self) == (RunningMonitorState {
                stability_pending: old(self).stability_pending && event
                    != MonitorEvent::StabilityDue(ChildPoll::Running),
                ..*old(self)
            }),
            *final(control) == (if event == MonitorEvent::StabilityDue(ChildPoll::Running) {
                SupervisorControl {
                    lifecycle: LifecycleState {
                        failure: None,
                        failure_streak: 0,
                        retry_at: None,
                        ..old(control).lifecycle
                    },
                    ..*old(control)
                }
            } else {
                *old(control)
            }),
    {
        match event {
            MonitorEvent::Shutdown | MonitorEvent::WakeClosed => Some(
                RunningMonitorOutcome::Shutdown,
            ),
            MonitorEvent::ChildEnded(end) => Some(RunningMonitorOutcome::ChildWait(end)),
            MonitorEvent::Mutation(effect) => if effect == MutationEffect::StopOwned {
                Some(RunningMonitorOutcome::ExplicitMutation)
            } else {
                None
            },
            MonitorEvent::StabilityDue(child) => match self.complete_stability_window(
                control,
                child,
            ) {
                Some(end) => Some(RunningMonitorOutcome::ChildWait(end)),
                None => None,
            },
            MonitorEvent::Wake | MonitorEvent::Stirred => None,
        }
    }

    /// Forgets earlier failures of a server that has run for the stability window, unless its
    /// process turns out to be gone.
    pub fn complete_stability_window(
        &mut self,
        control: &mut SupervisorControl,
        child: ChildPoll,
    ) -> (end: Option<ChildEnd>)
        requires
            old(control).lifecycle.phase == ServerPhase::Running,
            old(control).valid(),
        ensures
            final(control).valid(),
            final(control).lifecycle.may_follow(old(control).lifecycle),
            end == child_end(child),
            *final(self) == (RunningMonitorState {
                stability_pending: old(self).stability_pending && child != ChildPoll::Running,
                ..*old(self)
            }),
            *final(control) == (if child == ChildPoll::Running {
                SupervisorControl {
                    lifecycle: LifecycleState {
                        failure: None,
                        failure_streak: 0,
                        retry_at: None,
                        ..old(control).lifecycle
                    },
                    ..*old(control)
                }
            } else {
                *old(control)
            }),
    {
        match end_of_child(child) {
            Some(end) => Some(end),
            None => {
                control.reset_failure_streak();
                self.stability_pending = false;
                None
            },
        }
    }

    /// That waiting for sole use of the backend is pointless: the server was used meanwhile.
    pub open spec fn disturbed(
        self,
        activity: Option<CurrentCycleActivity>,
        expected_anchor: Nanos,
    ) -> bool {
        self.idle_anchor(activity) != Some(expected_anchor)
    }

    /// Whether to give up waiting for sole use of the backend before waiting on: because of a
    /// shutdown, or because the server was used meanwhile.
    pub fn acquire_idle_exclusive(
        &self,
        shutdown_due: bool,
        activity: Option<CurrentCycleActivity>,
        expected_anchor: Nanos,
    ) -> (outcome: Option<RunningMonitorOutcome>)
        ensures
            outcome == (if shutdown_due {
                Some(RunningMonitorOutcome::Shutdown)
            } else if self.disturbed(activity, expected_anchor) {
                Some(RunningMonitorOutcome::Continue)
            } else {
                None
            }),
    {
        if shutdown_due {
            return Some(RunningMonitorOutcome::Shutdown);
        }
        if self.effective_idle_anchor(activity) != Some(expected_anchor) {
            return Some(RunningMonitorOutcome::Continue);
        }
        None
    }

    /// Whether to give up waiting for sole use of the backend when its use changed.
    pub fn idle_disturbed(
        &self,
        activity: Option<CurrentCycleActivity>,
        expected_anchor: Nanos,
        idle_timeout: Nanos,
        now: Nanos,
    ) -> (disturbed: bool)
        ensures
            disturbed == (self.disturbed(activity, expected_anchor) || !elapsed(
                expected_anchor,
                idle_timeout,
                now,
            )),
    {
        let anchor = self.effective_idle_anchor(activity);
        if anchor != Some(expected_anchor) {
            return true;
        }
        !has_elapsed(expected_anchor, idle_timeout, now)
    }

    /// That, with sole use of the backend, the idle stop is still due: the same cycle runs, no
    /// session uses it, and it has been idle since the same moment for the whole idle time.
    pub open spec fn stop_due(
        self,
        lifecycle: LifecycleState,
        activity: Option<CurrentCycleActivity>,
        anchor: Nanos,
        idle_timeout: Nanos,
        now: Nanos,
    ) -> bool {
        &&& activity is Some
        &&& (activity->0).cycle == self.cycle
        &&& (activity->0).active_login_transfer_sessions == 0
        &&& self.idle_anchor(activity) == Some(anchor)
        &&& elapsed(anchor, idle_timeout, now)
        &&& lifecycle.running_cycle() == Some(self.cycle)
    }

    /// Whether, with sole use of the backend, the idle stop is still due.
    pub fn idle_stop_still_due(
        &self,
        lifecycle: LifecycleState,
        activity: Option<CurrentCycleActivity>,
        anchor: Nanos,
        idle_timeout: Nanos,
        now: Nanos,
    ) -> (due: bool)
        ensures
            due == self.stop_due(lifecycle, activity, anchor, idle_timeout, now),
    {
        match activity {
            None => {
                return false;
            },
            Some(snapshot) => {
                if snapshot.cycle() != self.cycle || snapshot.active_login_transfer_sessions()
                    != 0 {
                    return false;
                }
            },
        }
        if self.effective_idle_anchor(activity) != Some(anchor) {
            return false;
        }
        if !has_elapsed(anchor, idle_timeout, now) {
            return false;
        }
        lifecycle.owned_running_cycle() == Some(self.cycle)
    }

    /// Commits to an idle stop once the players were confirmed absent, if the same cycle still
    /// runs, no shutdown is due and the process is still there.
    pub fn attempt_expired_idle_stop(
        &self,
        control: &mut SupervisorControl,
        shutdown_due: bool,
        child: ChildPoll,
        now: Nanos,
    ) -> (outcome: RunningMonitorOutcome)
        requires
            old(control).valid(),
        ensures
            final(control).valid(),
            final(control).lifecycle.may_follow(old(control).lifecycle),
            outcome == (if old(control).lifecycle.running_cycle() != Some(self.cycle) {
                RunningMonitorOutcome::Continue
            } else if shutdown_due {
                RunningMonitorOutcome::Shutdown
            } else {
                match child_end(child) {
                    Some(end) => RunningMonitorOutcome::ChildWait(end),
                    None => RunningMonitorOutcome::Committed,
                }
            }),
            *final(control) == (if outcome == RunningMonitorOutcome::Committed {
                SupervisorControl {
                    lifecycle: old(control).lifecycle.moved_to(ServerPhase::Stopping, now),
                    stopping_reason: Some(StoppingReason::AutomaticIdle),
                    ..*old(control)
                }
            } else {
                *old(control)
            }),
    {
        if control.lifecycle.owned_running_cycle() != Some(self.cycle) {
            return RunningMonitorOutcome::Continue;
        }
        match before_idle_stop(shutdown_due, child) {
            Some(outcome) => outcome,
            None => {
                control.begin_idle_stop(self.cycle, now);
                RunningMonitorOutcome::Committed
            },
        }
    }

    /// That a console session is open.
    pub open spec fn connected(self) -> bool {
        self.player_inspection matches PlayerInspection::ConfiguredRcon { connected, .. }
            && connected
    }

    /// This watch after the console could not confirm that nobody plays.
    pub open spec fn vetoed(self, connected: bool, next_poll: int) -> RunningMonitorState {
        RunningMonitorState {
            player_inspection: PlayerInspection::ConfiguredRcon {
                connected,
                next_poll: next_poll as Nanos,
                zero_anchor: None,
            },
            ..self
        }
    }

    /// How the confirmation that nobody plays begins.
    pub open spec fn confirmation(self) -> ConfirmationStart {
        match self.player_inspection {
            PlayerInspection::ProxyOnly => ConfirmationStart::Confirmed,
            PlayerInspection::ConfiguredRcon { connected, .. } => if connected {
                ConfirmationStart::AskConsole
            } else {
                ConfirmationStart::Veto
            },
        }
    }

    /// This watch once the confirmation has begun. The console session is in use then; without
    /// one the console is tried again at the given moment.
    pub open spec fn confirming(self, retry_at: int) -> RunningMonitorState {
        match self.player_inspection {
            PlayerInspection::ProxyOnly => self,
            PlayerInspection::ConfiguredRcon { connected, next_poll, zero_anchor } => {
                if connected {
                    RunningMonitorState {
                        player_inspection: PlayerInspection::ConfiguredRcon {
                            connected: false,
                            next_poll,
                            zero_anchor,
                        },
                        ..self
                    }
                } else {
                    self.vetoed(false, retry_at)
                }
            },
        }
    }

    /// Begins to confirm that nobody plays. Without a console there is nothing to confirm; with
    /// one but without an open session nothing can be.
    pub fn confirm_idle_player_state(&mut self, retry_interval: Nanos, now: Nanos) -> (start:
        ConfirmationStart)
        requires
            now + retry_interval <= Nanos::MAX,
        ensures
            start == old(self).confirmation(),
            *final(self) == old(self).confirming(now + retry_interval),
    {
        match self.player_inspection {
            PlayerInspection::ProxyOnly => ConfirmationStart::Confirmed,
            PlayerInspection::ConfiguredRcon { connected, next_poll, zero_anchor } => {
                if connected {
                    self.player_inspection = PlayerInspection::ConfiguredRcon {
                        connected: false,
                        next_poll,
                        zero_anchor,
                    };
                    ConfirmationStart::AskConsole
                } else {
                    self.player_inspection = PlayerInspection::ConfiguredRcon {
                        connected: false,
                        next_poll: now + retry_interval,
                        zero_anchor: None,
                    };
                    ConfirmationStart::Veto
                }
            },
        }
    }

    /// What to do about an idle stop once the backend is held alone.
    pub open spec fn idle_stop_step(
        self,
        lifecycle: LifecycleState,
        activity: Option<CurrentCycleActivity>,
        anchor: Nanos,
        idle_timeout: Nanos,
        shutdown_due: bool,
        child: ChildPoll,
        now: Nanos,
    ) -> IdleStopStep {
        if !self.stop_due(lifecycle, activity, anchor, idle_timeout, now) {
            IdleStopStep::GiveUp(RunningMonitorOutcome::Continue)
        } else if shutdown_due {
            IdleStopStep::GiveUp(RunningMonitorOutcome::Shutdown)
        } else {
            match child_end(child) {
                Some(end) => IdleStopStep::GiveUp(RunningMonitorOutcome::ChildWait(end)),
                None => match self.confirmation() {
                    ConfirmationStart::Confirmed => IdleStopStep::Commit,
                    ConfirmationStart::Veto => IdleStopStep::GiveUp(
                        RunningMonitorOutcome::Continue,
                    ),
                    ConfirmationStart::AskConsole => IdleStopStep::AskConsole,
                },
            }
        }
    }

    /// Looks at an idle stop once the backend is held alone: is it still due, does nothing stand
    /// against it, and is it known that nobody plays?
    pub fn check_idle_stop(
        &mut self,
        lifecycle: LifecycleState,
        activity: Option<CurrentCycleActivity>,
        anchor: Nanos,
        idle_timeout: Nanos,
        shutdown_due: bool,
        child: ChildPoll,
        retry_interval: Nanos,
        now: Nanos,
    ) -> (step: IdleStopStep)
        requires
            now + retry_interval <= Nanos::MAX,
        ensures
            step == old(self).idle_stop_step(
                lifecycle,
                activity,
                anchor,
                idle_timeout,
                shutdown_due,
                child,
                now,
            ),
            *final(self) == (if old(self).stop_due(lifecycle, activity, anchor, idle_timeout, now)
                && !shutdown_due && child == ChildPoll::Running {
                old(self).confirming(now + retry_interval)
            } else {
                *old(self)
            }),
    {
        if !self.idle_stop_still_due(lifecycle, activity, anchor, idle_timeout, now) {
            return IdleStopStep::GiveUp(RunningMonitorOutcome::Continue);
        }
        if let Some(outcome) = before_idle_stop(shutdown_due, child) {
            return IdleStopStep::GiveUp(outcome);
        }
        match self.confirm_idle_player_state(retry_interval, now) {
            ConfirmationStart::Confirmed => IdleStopStep::Commit,
            ConfirmationStart::Veto => IdleStopStep::GiveUp(RunningMonitorOutcome::Continue),
            ConfirmationStart::AskConsole => IdleStopStep::AskConsole,
        }
    }

    /// Takes the console's answer to the question whether anybody plays. Anything but a clear
    /// zero is a veto, and begins the idle time anew. A session that answered stays open. Says
    /// whether nobody plays.
    pub fn final_rcon_player_check(
        &mut self,
        reply: &CommandReply,
        retry_interval: Nanos,
        poll_interval: Nanos,
        now: Nanos,
    ) -> (confirmed: bool)
        requires
            old(self).player_inspection is ConfiguredRcon,
            now + retry_interval <= Nanos::MAX,
            now + poll_interval <= Nanos::MAX,
        ensures
            confirmed == (reply.players() == Some(0u32)),
            *final(self) == (if confirmed {
                *old(self)
            } else if *reply is Response {
                old(self).vetoed(true, now + poll_interval)
            } else {
                old(self).vetoed(false, now + retry_interval)
            }),
    {
        match reply {
            CommandReply::Response(response) => {
                match observed_player_count(response.as_str()) {
                    Some(0) => true,
                    _ => {
                        self.player_inspection = PlayerInspection::ConfiguredRcon {
                            connected: true,
                            next_poll: now + poll_interval,
                            zero_anchor: None,
                        };
                        false
                    },
                }
            },
            CommandReply::Failed | CommandReply::TimedOut => {
                self.player_inspection = PlayerInspection::ConfiguredRcon {
                    connected: false,
                    next_poll: now + retry_interval,
                    zero_anchor: None,
                };
                false
            },
        }
    }

    /// Begins to ask the console how many players there are.
    pub fn poll_player_presence(&mut self) -> (step: PollStep)
        ensures
            step == (match old(self).player_inspection {
                PlayerInspection::ProxyOnly => PollStep::Nothing,
                PlayerInspection::ConfiguredRcon { connected, .. } => if connected {
                    PollStep::Ask
                } else {
                    PollStep::Connect
                },
            }),
            *final(self) == (match old(self).player_inspection {
                PlayerInspection::ConfiguredRcon { connected: false, next_poll, .. } => old(
                    self,
                ).vetoed(false, next_poll as int),
                _ => *old(self),
            }),
    {
        match self.player_inspection {
            PlayerInspection::ProxyOnly => PollStep::Nothing,
            PlayerInspection::ConfiguredRcon { connected, next_poll, .. } => {
                if connected {
                    return PollStep::Ask;
                }
                self.player_inspection = PlayerInspection::ConfiguredRcon {
                    connected: false,
                    next_poll,
                    zero_anchor: None,
                };
                PollStep::Connect
            },
        }
    }

    /// Takes the result of opening a console session: an open one is asked at once.
    pub fn poll_connected(&mut self, opened: bool, retry_interval: Nanos, now: Nanos)
        requires
            old(self).player_inspection is ConfiguredRcon,
            now + retry_interval <= Nanos::MAX,
        ensures
            *final(self) == (RunningMonitorState {
                player_inspection: PlayerInspection::ConfiguredRcon {
                    connected: opened,
                    next_poll: if opened {
                        now
                    } else {
                        (now + retry_interval) as Nanos
                    },
                    zero_anchor: old(self).player_inspection->zero_anchor,
                },
                ..*old(self)
            }),
    {
        if let PlayerInspection::ConfiguredRcon { zero_anchor, .. } = self.player_inspection {
            self.player_inspection = PlayerInspection::ConfiguredRcon {
                connected: opened,
                next_poll: if opened {
                    now
                } else {
                    now + retry_interval
                },
                zero_anchor,
            };
        }
    }

    /// Takes the console's answer to how many players there are. Only an unbroken run of zeros
    /// counts as idle; a session that did not answer is given up.
    pub fn poll_answered(
        &mut self,
        reply: &CommandReply,
        retry_interval: Nanos,
        poll_interval: Nanos,
        now: Nanos,
    )
        requires
            old(self).connected(),
            now + retry_interval <= Nanos::MAX,
            now + poll_interval <= Nanos::MAX,
        ensures
            *final(self) == (if !(*reply is Response) {
                old(self).vetoed(false, now + retry_interval)
            } else {
                RunningMonitorState {
                    player_inspection: PlayerInspection::ConfiguredRcon {
                        connected: true,
                        next_poll: (now + poll_interval) as Nanos,
                        zero_anchor: if reply.players() != Some(0u32) {
                            None
                        } else if old(self).player_inspection->zero_anchor is Some {
                            old(self).player_inspection->zero_anchor
                        } else {
                            Some(now)
                        },
                    },
                    ..*old(self)
                }
            }),
    {
        if let PlayerInspection::ConfiguredRcon { zero_anchor, .. } = self.player_inspection {
            match reply {
                CommandReply::Response(response) => {
                    let zero_anchor = match observed_player_count(response.as_str()) {
                        Some(0) => match zero_anchor {
                            Some(started) => Some(started),
                            None => Some(now),
                        },
                        _ => None,
                    };
                    self.player_inspection = PlayerInspection::ConfiguredRcon {
                        connected: true,
                        next_poll: now + poll_interval,
                        zero_anchor,
                    };
                },
                CommandReply::Failed | CommandReply::TimedOut => {
                    self.player_inspection = PlayerInspection::ConfiguredRcon {
                        connected: false,
                        next_poll: now + retry_interval,
                        zero_anchor: None,
                    };
                },
            }
        }
    }
}

/// How the confirmation that nobody plays begins.
#[derive(Clone, Copy, Debug, PartialEq, Eq, Structural)]
pub enum ConfirmationStart {
    Confirmed,
    Veto,
    AskConsole,
}

/// What to do about an idle stop once the backend is held alone.
#[derive(Clone, Copy, Debug, PartialEq, Eq, Structural)]
pub enum IdleStopStep {
    /// Let go of the backend; this is what came of it.
    GiveUp(RunningMonitorOutcome),
    /// Nobody plays: commit to the stop.
    Commit,
    /// Ask the console whether anybody plays, and commit if it says that nobody does.
    AskConsole,
}

/// How a question to the console begins.
#[derive(Clone, Copy, Debug, PartialEq, Eq, Structural)]
pub enum PollStep {
    Nothing,
    Connect,
    Ask,
}

/// What the console said to a command.
#[derive(Debug)]
pub enum CommandReply {
    Response(String),
    Failed,
    TimedOut,
}

impl CommandReply {
    /// The number of players that the reply tells, if it tells one.
    pub open spec fn players(self) -> Option<u32> {
        match self {
            CommandReply::Response(text) => match player_count(text@) {
                Ok(count) => Some(count),
                Err(_) => None,
            },
            _ => None,
        }
    }
}

/// What stands against an idle stop that is otherwise due: a shutdown, or a process that is
/// gone.
pub fn before_idle_stop(shutdown_due: bool, child: ChildPoll) -> (outcome: Option<
    RunningMonitorOutcome,
>)
    ensures
        outcome == (if shutdown_due {
            Some(RunningMonitorOutcome::Shutdown)
        } else {
            match child_end(child) {
                Some(end) => Some(RunningMonitorOutcome::ChildWait(end)),
                None => None,
            }
        }),
{
    if shutdown_due {
        return Some(RunningMonitorOutcome::Shutdown);
    }
    match end_of_child(child) {
        Some(end) => Some(RunningMonitorOutcome::ChildWait(end)),
        None => None,
    }
}

/// A server with a proxied session is never idle, nor is one whose console has not said that
/// nobody plays; and no stop for idleness is due then.
pub proof fn used_servers_are_not_idle(
    state: RunningMonitorState,
    lifecycle: LifecycleState,
    activity: CurrentCycleActivity,
    anchor: Nanos,
    idle_timeout: Nanos,
    now: Nanos,
)
    requires
        activity.active_login_transfer_sessions > 0 || activity.cycle != state.cycle
            || state.player_inspection matches PlayerInspection::ConfiguredRcon {
            zero_anchor: None,
            ..
        },
    ensures
        state.idle_anchor(Some(activity)) is None,
        !state.stop_due(lifecycle, Some(activity), anchor, idle_timeout, now),
{
}

/// A due idle stop means that the whole idle time has passed since both the last proxied
/// session and the last player.
pub proof fn idle_stop_waits_for_the_whole_idle_time(
    state: RunningMonitorState,
    lifecycle: LifecycleState,
    activity: Option<CurrentCycleActivity>,
    anchor: Nanos,
    idle_timeout: Nanos,
    now: Nanos,
)
    requires
        state.stop_due(lifecycle, activity, anchor, idle_timeout, now),
    ensures
        now - (activity->0).idle_since()->0 >= idle_timeout,
        state.player_inspection matches PlayerInspection::ConfiguredRcon { zero_anchor, .. } ==> {
            &&& zero_anchor is Some
            &&& now - zero_anchor->0 >= idle_timeout
        },
{
}

/// With a console, no stop for idleness is committed to before the console has been asked.
pub proof fn consoles_are_asked_before_a_stop(
    state: RunningMonitorState,
    lifecycle: LifecycleState,
    activity: Option<CurrentCycleActivity>,
    anchor: Nanos,
    idle_timeout: Nanos,
    shutdown_due: bool,
    child: ChildPoll,
    now: Nanos,
)
    requires
        state.player_inspection is ConfiguredRcon,
    ensures
        state.idle_stop_step(
            lifecycle,
            activity,
            anchor,
            idle_timeout,
            shutdown_due,
            child,
            now,
        ) != IdleStopStep::Commit,
{
}

/// A reply that cannot be read never passes for an empty server.
pub proof fn unreadable_reply_is_not_zero(reply: CommandReply)
    requires
        reply matches CommandReply::Response(text) ==> player_count(text@) is Err,
    ensures
        reply.players() != Some(0u32),
{
}

/// A server without sessions and without players has been idle since the later of the two, and
/// its idle stop is due once the idle time has passed since both.
pub proof fn unused_servers_are_stopped(
    state: RunningMonitorState,
    lifecycle: LifecycleState,
    activity: CurrentCycleActivity,
    idle_timeout: Nanos,
    now: Nanos,
) -> (anchor: Nanos)
    requires
        activity.cycle == state.cycle,
        activity.active_login_transfer_sessions == 0,
        lifecycle.phase == ServerPhase::Running,
        lifecycle.launch_generation == state.cycle.0,
        now - activity.idle_since()->0 >= idle_timeout,
        state.player_inspection matches PlayerInspection::ConfiguredRcon { zero_anchor, .. } ==> {
            &&& zero_anchor is Some
            &&& now - zero_anchor->0 >= idle_timeout
        },
    ensures
        state.idle_anchor(Some(activity)) == Some(anchor),
        anchor >= activity.idle_since()->0,
        state.player_inspection is ProxyOnly ==> Some(anchor) == activity.idle_since(),
        state.player_inspection matches PlayerInspection::ConfiguredRcon { zero_anchor, .. } ==> {
            &&& anchor >= zero_anchor->0
            &&& Some(anchor) == zero_anchor || Some(anchor) == activity.idle_since()
        },
        state.stop_due(lifecycle, Some(activity), anchor, idle_timeout, now),
{
    state.idle_anchor(Some(activity))->0
}

/// An idle stop is due only for the cycle that runs, without a session, and from the moment that
/// both began to be true.
pub proof fn idle_stops_are_for_the_running_cycle(
    state: RunningMonitorState,
    lifecycle: LifecycleState,
    activity: Option<CurrentCycleActivity>,
    anchor: Nanos,
    idle_timeout: Nanos,
    now: Nanos,
)
    requires
        state.stop_due(lifecycle, activity, anchor, idle_timeout, now),
    ensures
        lifecycle.phase == ServerPhase::Running,
        lifecycle.launch_generation == state.cycle.0,
        activity matches Some(snapshot) && snapshot.cycle == state.cycle
            && snapshot.active_login_transfer_sessions == 0,
        now - anchor >= idle_timeout,
        !state.disturbed(activity, anchor),
{
}

/// Waiting for sole use is pointless as soon as the server was used.
pub proof fn used_servers_are_let_go(
    state: RunningMonitorState,
    activity: CurrentCycleActivity,
    anchor: Nanos,
)
    requires
        activity.active_login_transfer_sessions > 0,
    ensures
        state.disturbed(Some(activity), anchor),
{
}

/// A moment has come exactly once its whole length has passed.
pub proof fn lengths_pass_wholly(anchor: Nanos, length: Nanos, now: Nanos)
    ensures
        elapsed(anchor, length, now) <==> now - anchor >= length,
{
}

/// A reply that tells at least one player does not tell that nobody plays, and one that tells
/// none does.
pub proof fn replies_tell_the_players(
    reply: CommandReply,
    players: u32,
    limit: u32,
    tail: Seq<char>,
)
    requires
        reply matches CommandReply::Response(text) && text@ == "There are "@ + decimal(
            players as nat,
        ) + " of a max of "@ + decimal(limit as nat) + " players online:"@ + tail,
    ensures
        reply.players() == Some(players),
        players > 0 ==> reply.players() != Some(0u32),
{
    told_counts_are_read(players, limit, tail);
}

/// A console that failed or did not answer in time tells nothing.
pub proof fn silence_tells_nothing(reply: CommandReply)
    requires
        !(reply is Response),
    ensures
        reply.players() is None,
{
}

/// A veto begins the idle time anew: no stop for idleness is due until the console has said again
/// that nobody plays. Without a console there is nothing to ask, with one and without a session
/// nothing can be confirmed.
pub proof fn vetoes_begin_the_idle_time_anew(
    state: RunningMonitorState,
    connected: bool,
    next_poll: Nanos,
    activity: Option<CurrentCycleActivity>,
)
    ensures
        state.vetoed(connected, next_poll as int).idle_anchor(activity) is None,
        state.vetoed(connected, next_poll as int).connected() == connected,
        state.vetoed(connected, next_poll as int).player_inspection.poll_due_at() == Some(next_poll),
        state.vetoed(connected, next_poll as int).cycle == state.cycle,
        state.vetoed(connected, next_poll as int).stable_at == state.stable_at,
        state.vetoed(connected, next_poll as int).stability_pending == state.stability_pending,
        state.player_inspection is ProxyOnly ==> state.confirmation()
            == ConfirmationStart::Confirmed && !state.connected()
            && state.player_inspection.poll_due_at() is None,
        state.player_inspection is ConfiguredRcon && state.connected() ==> state.confirmation()
            == ConfirmationStart::AskConsole,
        state.player_inspection is ConfiguredRcon && !state.connected() ==> state.confirmation()
            == ConfirmationStart::Veto,
{
}

/// The confirmation takes the console session for itself; without one it counts as a veto.
pub proof fn confirmations_take_the_session(state: RunningMonitorState, retry_at: Nanos)
    ensures
        !state.confirming(retry_at as int).connected(),
        state.player_inspection is ProxyOnly ==> state.confirming(retry_at as int) == state,
        state.player_inspection is ConfiguredRcon && !state.connected() ==> state.confirming(
            retry_at as int,
        ) == state.vetoed(false, retry_at as int),
        state.player_inspection is ConfiguredRcon && state.connected() ==> state.confirming(
            retry_at as int,
        ).player_inspection->zero_anchor == state.player_inspection->zero_anchor,
{
}

/// What becomes of an idle stop once the backend is held alone: one that is not due any more is
/// given up, a shutdown and the end of the process come before it, and without a console it is
/// committed to.
pub proof fn idle_stops_give_way(
    state: RunningMonitorState,
    lifecycle: LifecycleState,
    activity: Option<CurrentCycleActivity>,
    anchor: Nanos,
    idle_timeout: Nanos,
    shutdown_due: bool,
    child: ChildPoll,
    now: Nanos,
)
    ensures
        ({
            let due = state.stop_due(lifecycle, activity, anchor, idle_timeout, now);
            let step = state.idle_stop_step(
                lifecycle,
                activity,
                anchor,
                idle_timeout,
                shutdown_due,
                child,
                now,
            );
            &&& !due ==> step == IdleStopStep::GiveUp(RunningMonitorOutcome::Continue)
            &&& due && shutdown_due ==> step == IdleStopStep::GiveUp(
                RunningMonitorOutcome::Shutdown,
            )
            &&& due && !shutdown_due && child == ChildPoll::Exited ==> step
                == IdleStopStep::GiveUp(RunningMonitorOutcome::ChildWait(ChildEnd::Exited))
            &&& due && !shutdown_due && child == ChildPoll::WaitFailed ==> step
                == IdleStopStep::GiveUp(RunningMonitorOutcome::ChildWait(ChildEnd::WaitFailed))
            &&& due && !shutdown_due && child == ChildPoll::Running && state.player_inspection
                is ProxyOnly ==> step == IdleStopStep::Commit
            &&& due && !shutdown_due && child == ChildPoll::Running && state.connected() ==> step
                == IdleStopStep::AskConsole
        }),
{
}

/// A server is idle exactly in the cycle that is watched, without a session and, where it has a
/// console, once that has told that nobody plays.
pub proof fn idle_servers_are_unused(
    state: RunningMonitorState,
    activity: Option<CurrentCycleActivity>,
)
    ensures
        state.idle_anchor(activity) is Some <==> (activity matches Some(snapshot) && snapshot.cycle
            == state.cycle && snapshot.active_login_transfer_sessions == 0) && match state.player_inspection {
            PlayerInspection::ProxyOnly => true,
            PlayerInspection::ConfiguredRcon { zero_anchor, .. } => zero_anchor is Some,
        },
{
}

/// A stop that waits for sole use is given up as soon as the server's idle time began anew or
/// ended; without a console session, where one is configured, an idle stop is not committed to.
pub proof fn idle_stops_need_their_anchor(
    state: RunningMonitorState,
    lifecycle: LifecycleState,
    activity: Option<CurrentCycleActivity>,
    anchor: Nanos,
    idle_timeout: Nanos,
    child: ChildPoll,
    now: Nanos,
)
    ensures
        state.disturbed(activity, anchor) <==> state.idle_anchor(activity) != Some(anchor),
        state.player_inspection is ConfiguredRcon && !state.connected() ==> state.idle_stop_step(
            lifecycle,
            activity,
            anchor,
            idle_timeout,
            false,
            ChildPoll::Running,
            now,
        ) == IdleStopStep::GiveUp(RunningMonitorOutcome::Continue),
        state.connected() ==> state.confirming(0).player_inspection.poll_due_at()
            == state.player_inspection.poll_due_at(),
        child_end(child) is None <==> child == ChildPoll::Running,
{
}

} // verus!
