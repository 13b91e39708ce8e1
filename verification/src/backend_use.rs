//! Who uses an owned backend: the proxied login sessions of the cycle that runs.

use vstd::prelude::*;

use crate::supervisor::lifecycle::Nanos;

verus! {

/// The cycle of an owned backend: one launch of the server process.
#[derive(Clone, Copy, Debug, PartialEq, Eq, Structural)]
pub struct BackendCycle(pub u64);

impl BackendCycle {
    /// The cycle that a launch generation stands for.
    pub fn from_launch_generation(generation: u64) -> (cycle: BackendCycle)
        ensures
            cycle == BackendCycle(generation),
    {
        BackendCycle(generation)
    }
}

/// The use of one cycle.
#[derive(Clone, Copy, Debug, PartialEq, Eq, Structural)]
pub struct ActivityState {
    pub cycle: BackendCycle,
    pub active_login_transfer_sessions: usize,
    pub running_since: Nanos,
    pub last_final_session_disconnect: Option<Nanos>,
}

/// A copy of the use of the current cycle, taken at one moment.
#[derive(Clone, Copy, Debug, PartialEq, Eq, Structural)]
pub struct CurrentCycleActivity {
    pub cycle: BackendCycle,
    pub active_login_transfer_sessions: usize,
    pub running_since: Nanos,
    pub last_final_session_disconnect: Option<Nanos>,
}

impl ActivityState {
    /// The copy of this state, in mathematical form.
    pub open spec fn as_snapshot(self) -> CurrentCycleActivity {
        CurrentCycleActivity {
            cycle: self.cycle,
            active_login_transfer_sessions: self.active_login_transfer_sessions,
            running_since: self.running_since,
            last_final_session_disconnect: self.last_final_session_disconnect,
        }
    }

    /// A copy of this state.
    pub fn snapshot(&self) -> (snapshot: CurrentCycleActivity)
        ensures
            snapshot == self.as_snapshot(),
    {
        CurrentCycleActivity {
            cycle: self.cycle,
            active_login_transfer_sessions: self.active_login_transfer_sessions,
            running_since: self.running_since,
            last_final_session_disconnect: self.last_final_session_disconnect,
        }
    }
}

impl CurrentCycleActivity {
    /// The cycle in question.
    pub fn cycle(self) -> (cycle: BackendCycle)
        ensures
            cycle == self.cycle,
    {
        self.cycle
    }

    /// How many login sessions are being proxied.
    pub fn active_login_transfer_sessions(self) -> (sessions: usize)
        ensures
            sessions == self.active_login_transfer_sessions,
    {
        self.active_login_transfer_sessions
    }

    /// When the last session of this cycle ended with no other one left.
    pub fn last_final_session_disconnect(self) -> (moment: Option<Nanos>)
        ensures
            moment == self.last_final_session_disconnect,
    {
        self.last_final_session_disconnect
    }

    /// Since when no session has been proxied: since the last one ended or, without any, since
    /// the server runs.
    pub open spec fn idle_since(self) -> Option<Nanos> {
        if self.active_login_transfer_sessions != 0 {
            None
        } else if self.last_final_session_disconnect is Some {
            self.last_final_session_disconnect
        } else {
            Some(self.running_since)
        }
    }

    /// Since when no session has been proxied, if none is being proxied.
    pub fn proxy_idle_anchor(self) -> (anchor: Option<Nanos>)
        ensures
            anchor == self.idle_since(),
    {
        if self.active_login_transfer_sessions == 0 {
            Some(self.last_final_session_disconnect.unwrap_or(self.running_since))
        } else {
            None
        }
    }
}

/// The use of the backend, cycle by cycle. Only the cycle that began last counts.
#[derive(Clone, Copy, Debug, PartialEq, Eq, Structural)]
pub struct BackendUseCoordinator {
    pub activity: Option<ActivityState>,
}

impl BackendUseCoordinator {
    /// That `cycle` is the one that counts.
    pub open spec fn counts(self, cycle: BackendCycle) -> bool {
        self.activity matches Some(state) && state.cycle == cycle
    }

    /// The number of sessions of the current cycle.
    pub open spec fn sessions(self) -> nat {
        match self.activity {
            Some(state) => state.active_login_transfer_sessions as nat,
            None => 0,
        }
    }

    /// No cycle has begun.
    pub fn new() -> (coordinator: BackendUseCoordinator)
        ensures
            coordinator == (BackendUseCoordinator { activity: None }),
    {
        BackendUseCoordinator { activity: None }
    }

    /// Begins a cycle without sessions.
    pub fn begin_cycle(&mut self, cycle: BackendCycle, running_since: Nanos)
        ensures
            *final(self) == (BackendUseCoordinator {
                activity: Some(
                    ActivityState {
                        cycle,
                        active_login_transfer_sessions: 0,
                        running_since,
                        last_final_session_disconnect: None,
                    },
                ),
            }),
    {
        self.activity = Some(
            ActivityState {
                cycle,
                active_login_transfer_sessions: 0,
                running_since,
                last_final_session_disconnect: None,
            },
        );
    }

    /// A copy of the use of the current cycle.
    pub fn activity_snapshot(&self) -> (snapshot: Option<CurrentCycleActivity>)
        ensures
            snapshot == (match self.activity {
                Some(state) => Some(state.as_snapshot()),
                None => None,
            }),
    {
        match &self.activity {
            Some(state) => Some(state.snapshot()),
            None => None,
        }
    }

    /// Counts a session of `cycle`. Says whether that cycle is still the current one.
    pub fn establish_login_transfer_session(&mut self, cycle: BackendCycle) -> (established: bool)
        requires
            old(self).counts(cycle) ==> old(self).sessions() < usize::MAX,
        ensures
            established == old(self).counts(cycle),
            !established ==> *final(self) == *old(self),
            established ==> *final(self) == (BackendUseCoordinator {
                activity: Some(
                    ActivityState {
                        active_login_transfer_sessions: (old(self).sessions() + 1) as usize,
                        ..old(self).activity->0
                    },
                ),
            }),
    {
        match self.activity {
            Some(state) => {
                if state.cycle != cycle {
                    return false;
                }
                self.activity = Some(
                    ActivityState {
                        cycle: state.cycle,
                        active_login_transfer_sessions: state.active_login_transfer_sessions + 1,
                        running_since: state.running_since,
                        last_final_session_disconnect: state.last_final_session_disconnect,
                    },
                );
                true
            },
            None => false,
        }
    }

    /// Ends a session of `cycle` at `now`. A session of an earlier cycle no longer counts. Says
    /// whether anything changed.
    pub fn end_login_transfer_session(&mut self, cycle: BackendCycle, now: Nanos) -> (changed: bool)
        requires
            old(self).counts(cycle) ==> old(self).sessions() > 0,
        ensures
            changed == old(self).counts(cycle),
            !changed ==> *final(self) == *old(self),
            changed ==> *final(self) == (BackendUseCoordinator {
                activity: Some(
                    ActivityState {
                        active_login_transfer_sessions: (old(self).sessions() - 1) as usize,
                        last_final_session_disconnect: if old(self).sessions() == 1 {
                            Some(now)
                        } else {
                            (old(self).activity->0).last_final_session_disconnect
                        },
                        ..old(self).activity->0
                    },
                ),
            }),
    {
        match self.activity {
            Some(state) => {
                if state.cycle != cycle {
                    return false;
                }
                let remaining: usize = state.active_login_transfer_sessions - 1;
                self.activity = Some(
                    ActivityState {
                        cycle: state.cycle,
                        active_login_transfer_sessions: remaining,
                        running_since: state.running_since,
                        last_final_session_disconnect: if remaining == 0 {
                            Some(now)
                        } else {
                            state.last_final_session_disconnect
                        },
                    },
                );
                true
            },
            None => false,
        }
    }
}

/// While a session is proxied the backend is not idle, and from the moment that the last one
/// ends it is idle since then.
pub proof fn idle_begins_when_the_last_session_ends(
    before: ActivityState,
    after: ActivityState,
    now: Nanos,
)
    requires
        before.active_login_transfer_sessions == 1,
        after == (ActivityState {
            active_login_transfer_sessions: 0,
            last_final_session_disconnect: Some(now),
            ..before
        }),
    ensures
        before.as_snapshot().idle_since() is None,
        after.as_snapshot().idle_since() == Some(now),
{
}

/// Without a session the backend has been idle since the last one ended or, if there was none,
/// since the server runs; with one it is not idle.
pub proof fn idleness_is_the_lack_of_sessions(activity: CurrentCycleActivity)
    ensures
        activity.idle_since() is Some <==> activity.active_login_transfer_sessions == 0,
        activity.active_login_transfer_sessions == 0 && activity.last_final_session_disconnect is None
            ==> activity.idle_since() == Some(activity.running_since),
        activity.active_login_transfer_sessions == 0 && activity.last_final_session_disconnect is Some
            ==> activity.idle_since() == activity.last_final_session_disconnect,
{
}

/// A copy of the use of a cycle shows it as it is.
pub proof fn snapshots_are_faithful(state: ActivityState)
    ensures
        state.as_snapshot().cycle == state.cycle,
        state.as_snapshot().active_login_transfer_sessions == state.active_login_transfer_sessions,
        state.as_snapshot().running_since == state.running_since,
        state.as_snapshot().last_final_session_disconnect == state.last_final_session_disconnect,
{
}

/// Only the sessions of the cycle that began last count, each once.
pub proof fn only_the_current_cycle_counts(use_of: BackendUseCoordinator, cycle: BackendCycle)
    ensures
        use_of.counts(cycle) <==> use_of.activity is Some && (use_of.activity->0).cycle == cycle,
        use_of.activity matches Some(state) ==> use_of.sessions()
            == state.active_login_transfer_sessions,
        use_of.activity is None ==> use_of.sessions() == 0,
{
}

} // verus!
