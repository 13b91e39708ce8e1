//! The published lifecycle of a server, wake-up requests and the latch that holds them.

use vstd::prelude::*;

use crate::backend_use::BackendCycle;

verus! {

/// A length of time, or a moment on the daemon's monotonic clock, in nanoseconds.
pub type Nanos = u128;

/// Nanoseconds in one second.
pub const SECOND: Nanos = 1_000_000_000;

/// The longest cooldown after a failure.
pub const LONGEST_BACKOFF: Nanos = 60_000_000_000;

/// Where a server stands in its life.
#[derive(Clone, Copy, Debug, PartialEq, Eq, Structural)]
pub enum ServerPhase {
    Reconciling,
    Stopped,
    Starting,
    Running,
    Stopping,
    Cooldown,
    External,
    Conflict,
}

/// What earlier probes have shown about a backend that this daemon does not own.
#[derive(Clone, Copy, Debug, PartialEq, Eq, Structural)]
pub enum ReconciliationEvidence {
    Absent,
    Inconclusive,
    Positive,
}

/// Why the last owned server process failed.
#[derive(Clone, Copy, Debug, PartialEq, Eq, Structural)]
pub enum FailureCategory {
    LaunchFailed,
    StartupTimedOut,
    ExitedBeforeReady,
    ExitedUnexpectedly,
}

/// The lifecycle of a server as the supervisor publishes it.
#[derive(Clone, Copy, Debug, PartialEq, Eq, Structural)]
pub struct LifecycleState {
    pub phase: ServerPhase,
    pub command_revision: u64,
    pub launch_generation: u64,
    pub failure: Option<FailureCategory>,
    pub failure_streak: u32,
    pub phase_started_at: Nanos,
    pub retry_at: Option<Nanos>,
    pub reconciliation_evidence: ReconciliationEvidence,
}

/// The part of a lifecycle that a status request shows.
#[derive(Clone, Copy, Debug, PartialEq, Eq, Structural)]
pub struct LifecycleStatusSnapshot {
    pub phase: ServerPhase,
    pub failure: Option<FailureCategory>,
    pub failure_streak: u32,
    pub retry_at: Option<Nanos>,
    pub command_revision: u64,
}

impl LifecycleState {
    /// The evidence that a phase carries: an external backend is positive evidence, a
    /// conflict is some evidence, and every phase that owns its backend has none.
    pub open spec fn valid(self) -> bool {
        match self.phase {
            ServerPhase::Reconciling => true,
            ServerPhase::External => self.reconciliation_evidence
                == ReconciliationEvidence::Positive,
            ServerPhase::Conflict => self.reconciliation_evidence != ReconciliationEvidence::Absent,
            _ => self.reconciliation_evidence == ReconciliationEvidence::Absent,
        }
    }

    /// That `self` may follow `earlier`: no counter goes back.
    pub open spec fn may_follow(self, earlier: LifecycleState) -> bool {
        self.command_revision >= earlier.command_revision && self.launch_generation
            >= earlier.launch_generation
    }

    /// This lifecycle moved at `now` to a phase that owns its backend.
    pub open spec fn moved_to(self, phase: ServerPhase, now: Nanos) -> LifecycleState {
        LifecycleState {
            phase,
            phase_started_at: now,
            retry_at: None,
            reconciliation_evidence: ReconciliationEvidence::Absent,
            ..self
        }
    }

    /// This lifecycle in the cooldown that starts at `now` and ends after `delay`.
    pub open spec fn cooling_down(self, now: Nanos, delay: int) -> LifecycleState {
        LifecycleState {
            phase: ServerPhase::Cooldown,
            phase_started_at: now,
            retry_at: Some((now + delay) as Nanos),
            reconciliation_evidence: ReconciliationEvidence::Absent,
            ..self
        }
    }

    /// This lifecycle with one more failure of the given category.
    pub open spec fn failed(self, failure: FailureCategory) -> LifecycleState {
        LifecycleState {
            failure: Some(failure),
            failure_streak: next_streak(self.failure_streak),
            ..self
        }
    }

    /// The first lifecycle of a server: nothing is known of its backend yet.
    pub fn reconciling(now: Nanos) -> (state: LifecycleState)
        ensures
            state == (LifecycleState {
                phase: ServerPhase::Reconciling,
                command_revision: 0,
                launch_generation: 0,
                failure: None,
                failure_streak: 0,
                phase_started_at: now,
                retry_at: None,
                reconciliation_evidence: ReconciliationEvidence::Absent,
            }),
            state.valid(),
    {
        LifecycleState {
            phase: ServerPhase::Reconciling,
            command_revision: 0,
            launch_generation: 0,
            failure: None,
            failure_streak: 0,
            phase_started_at: now,
            retry_at: None,
            reconciliation_evidence: ReconciliationEvidence::Absent,
        }
    }

    /// The phase.
    pub fn phase(self) -> (phase: ServerPhase)
        ensures
            phase == self.phase,
    {
        self.phase
    }

    /// What a status request shows of this lifecycle.
    pub fn status_snapshot(self) -> (snapshot: LifecycleStatusSnapshot)
        ensures
            snapshot.phase == self.phase,
            snapshot.failure == self.failure,
            snapshot.failure_streak == self.failure_streak,
            snapshot.retry_at == self.retry_at,
            snapshot.command_revision == self.command_revision,
    {
        LifecycleStatusSnapshot {
            phase: self.phase,
            failure: self.failure,
            failure_streak: self.failure_streak,
            retry_at: self.retry_at,
            command_revision: self.command_revision,
        }
    }

    /// The owned cycle that is running, in mathematical form.
    pub open spec fn running_cycle(self) -> Option<BackendCycle> {
        if self.phase == ServerPhase::Running {
            Some(BackendCycle(self.launch_generation))
        } else {
            None
        }
    }

    /// The owned cycle that is running, if one is.
    pub fn owned_running_cycle(self) -> (cycle: Option<BackendCycle>)
        ensures
            cycle == self.running_cycle(),
    {
        if self.phase == ServerPhase::Running {
            Some(BackendCycle::from_launch_generation(self.launch_generation))
        } else {
            None
        }
    }

    /// Whether the evidence fits the phase.
    pub fn invariant_holds(self) -> (holds: bool)
        ensures
            holds == self.valid(),
    {
        match self.phase {
            ServerPhase::Reconciling => true,
            ServerPhase::External => self.reconciliation_evidence
                == ReconciliationEvidence::Positive,
            ServerPhase::Conflict => self.reconciliation_evidence != ReconciliationEvidence::Absent,
            ServerPhase::Stopped
            | ServerPhase::Starting
            | ServerPhase::Running
            | ServerPhase::Stopping
            | ServerPhase::Cooldown => self.reconciliation_evidence
                == ReconciliationEvidence::Absent,
        }
    }
}

/// The failure streak after one more failure; it stays at its maximum.
pub open spec fn next_streak(streak: u32) -> u32 {
    if streak == u32::MAX {
        u32::MAX
    } else {
        (streak + 1) as u32
    }
}

/// The cooldown after the given number of failures in a row: five seconds, doubled for every
/// further failure up to the fourth, then one minute.
pub open spec fn backoff(failure_streak: u32) -> Nanos {
    if failure_streak == 1 {
        (5 * SECOND) as Nanos
    } else if failure_streak == 2 {
        (10 * SECOND) as Nanos
    } else if failure_streak == 3 {
        (20 * SECOND) as Nanos
    } else if failure_streak == 4 {
        (40 * SECOND) as Nanos
    } else {
        (60 * SECOND) as Nanos
    }
}

/// The cooldown that follows `failure_streak` failures in a row.
pub fn failure_backoff(failure_streak: u32) -> (delay: Nanos)
    requires
        failure_streak > 0,
    ensures
        delay == backoff(failure_streak),
        5 * SECOND <= delay <= LONGEST_BACKOFF,
{
    match failure_streak {
        1 => 5 * SECOND,
        2 => 10 * SECOND,
        3 => 20 * SECOND,
        4 => 40 * SECOND,
        _ => 60 * SECOND,
    }
}

/// More failures in a row never shorten the cooldown.
pub proof fn backoff_grows(fewer: u32, more: u32)
    requires
        0 < fewer <= more,
    ensures
        5 * SECOND <= backoff(fewer) <= backoff(more) <= LONGEST_BACKOFF,
{
}

/// How recent the lifecycle is that a wake-up request has seen. Newer commands come first,
/// then newer launches.
#[derive(Clone, Copy, Debug, PartialEq, Eq, Structural)]
pub struct FreshnessKey {
    pub command_revision: u64,
    pub launch_generation: u64,
}

impl FreshnessKey {
    /// That `self` is strictly newer than `other`.
    pub open spec fn newer(self, other: FreshnessKey) -> bool {
        self.command_revision > other.command_revision || (self.command_revision
            == other.command_revision && self.launch_generation > other.launch_generation)
    }

    /// Whether `self` is strictly newer than `other`.
    pub fn is_newer(self, other: FreshnessKey) -> (newer: bool)
        ensures
            newer == self.newer(other),
    {
        self.command_revision > other.command_revision || (self.command_revision
            == other.command_revision && self.launch_generation > other.launch_generation)
    }
}

/// A login that asks for the server, with the lifecycle that it saw.
#[derive(Clone, Copy, Debug, PartialEq, Eq, Structural)]
pub struct WakeRequest {
    pub observed: LifecycleState,
}

impl WakeRequest {
    /// That the request saw the same command and the same launch as `current`.
    pub open spec fn same_counters(self, current: LifecycleState) -> bool {
        self.observed.command_revision == current.command_revision
            && self.observed.launch_generation == current.launch_generation
    }

    /// That the request starts a stopped server: it is not older than the stop, and it saw a
    /// phase in which asking for a start makes sense.
    pub open spec fn starts(self, current: LifecycleState) -> bool {
        &&& current.phase == ServerPhase::Stopped
        &&& self.same_counters(current)
        &&& (self.observed.phase == ServerPhase::Reconciling || self.observed.phase
            == ServerPhase::Stopped || self.observed.phase == ServerPhase::Stopping
            || self.observed.phase == ServerPhase::Cooldown)
    }

    /// That the request asks to look again at exactly the current conflict.
    pub open spec fn rechecks(self, current: LifecycleState) -> bool {
        current.phase == ServerPhase::Conflict && self.observed == current
    }

    /// That the request asks for a new start after exactly the current stop.
    pub open spec fn restarts(self, current: LifecycleState) -> bool {
        current.phase == ServerPhase::Stopping && self.observed == current
    }

    /// That the request asks for a retry of exactly the current failure.
    pub open spec fn retries(self, current: LifecycleState) -> bool {
        &&& current.failure is Some
        &&& self.same_counters(current)
        &&& self.observed.failure == current.failure
        &&& self.observed.failure_streak == current.failure_streak
        &&& (self.observed.phase == ServerPhase::Stopping || self.observed.phase
            == ServerPhase::Cooldown)
        &&& (current.phase == ServerPhase::Stopping || current.phase == ServerPhase::Cooldown)
    }

    /// How recent the request is, in mathematical form.
    pub open spec fn key(self) -> FreshnessKey {
        FreshnessKey {
            command_revision: self.observed.command_revision,
            launch_generation: self.observed.launch_generation,
        }
    }

    /// The request of a login that saw `lifecycle`.
    pub fn observed(lifecycle: LifecycleState) -> (request: WakeRequest)
        ensures
            request == (WakeRequest { observed: lifecycle }),
    {
        WakeRequest { observed: lifecycle }
    }

    /// Whether the request may start the server that is `current`ly stopped.
    pub fn can_start(self, current: LifecycleState) -> (starts: bool)
        ensures
            starts == self.starts(current),
    {
        current.phase == ServerPhase::Stopped && self.observed.command_revision
            == current.command_revision && self.observed.launch_generation
            == current.launch_generation && match self.observed.phase {
            ServerPhase::Reconciling
            | ServerPhase::Stopped
            | ServerPhase::Stopping
            | ServerPhase::Cooldown => true,
            _ => false,
        }
    }

    /// Whether the request asks to reconcile the current conflict again.
    pub fn requests_conflict_reconciliation(self, current: LifecycleState) -> (rechecks: bool)
        ensures
            rechecks == self.rechecks(current),
    {
        current.phase == ServerPhase::Conflict && self.observed == current
    }

    /// Whether the request asks to start again after the current stop.
    pub fn requests_restart(self, current: LifecycleState) -> (restarts: bool)
        ensures
            restarts == self.restarts(current),
    {
        current.phase == ServerPhase::Stopping && self.observed == current
    }

    /// Whether the request asks to retry after the current failure.
    pub fn requests_retry(self, current: LifecycleState) -> (retries: bool)
        ensures
            retries == self.retries(current),
    {
        current.failure.is_some() && self.observed.command_revision == current.command_revision
            && self.observed.failure == current.failure && self.observed.failure_streak
            == current.failure_streak && self.observed.launch_generation
            == current.launch_generation && match self.observed.phase {
            ServerPhase::Stopping | ServerPhase::Cooldown => true,
            _ => false,
        } && match current.phase {
            ServerPhase::Stopping | ServerPhase::Cooldown => true,
            _ => false,
        }
    }

    /// How recent the request is.
    pub fn freshness(self) -> (key: FreshnessKey)
        ensures
            key == self.key(),
    {
        FreshnessKey {
            command_revision: self.observed.command_revision,
            launch_generation: self.observed.launch_generation,
        }
    }
}

/// A request is good for at most one purpose: no lifecycle is stopped, in conflict and
/// stopping at once.
pub proof fn wake_purposes_exclude(request: WakeRequest, current: LifecycleState)
    ensures
        !(request.starts(current) && request.rechecks(current)),
        !(request.starts(current) && request.restarts(current)),
        !(request.starts(current) && request.retries(current)),
        !(request.rechecks(current) && request.retries(current)),
        !(request.rechecks(current) && request.restarts(current)),
{
}

/// Once the command revision or the launch generation has moved on, a request that saw the
/// earlier lifecycle starts nothing, retries nothing and rechecks nothing.
pub proof fn outdated_wake_does_nothing(request: WakeRequest, current: LifecycleState)
    requires
        !request.same_counters(current),
    ensures
        !request.starts(current),
        !request.rechecks(current),
        !request.restarts(current),
        !request.retries(current),
{
}

/// A login that saw the current lifecycle is good for something in every phase without a server
/// that runs or starts: it starts a stopped server, starts a stopping one again, retries a failed
/// one, and has a conflict looked at again.
pub proof fn current_wake_is_heard(lifecycle: LifecycleState)
    ensures
        ({
            let request = WakeRequest { observed: lifecycle };
            &&& lifecycle.phase == ServerPhase::Stopped ==> request.starts(lifecycle)
            &&& lifecycle.phase == ServerPhase::Stopping ==> request.restarts(lifecycle)
            &&& lifecycle.phase == ServerPhase::Cooldown && lifecycle.failure is Some
                ==> request.retries(lifecycle)
            &&& lifecycle.phase == ServerPhase::Conflict ==> request.rechecks(lifecycle)
        }),
{
}

/// The wake latch is closed: the supervisor takes no more requests.
#[derive(Clone, Copy, Debug, PartialEq, Eq, Structural)]
pub enum WakeLatchError {
    Closed,
}

/// What a receiver finds in the latch.
#[derive(Clone, Copy, Debug, PartialEq, Eq, Structural)]
pub enum WakeLatchPoll {
    Closed,
    Request(WakeRequest),
    Empty,
}

/// A one-slot mailbox of wake-up requests that keeps the freshest one.
#[derive(Clone, Copy, Debug, PartialEq, Eq, Structural)]
pub struct WakeLatch {
    pub pending: Option<WakeRequest>,
    pub closed: bool,
}

impl WakeLatch {
    /// A closed latch holds nothing.
    pub open spec fn valid(self) -> bool {
        self.closed ==> self.pending is None
    }

    /// What an open latch holds after `request` arrives.
    pub open spec fn offered(self, request: WakeRequest) -> Option<WakeRequest> {
        match self.pending {
            None => Some(request),
            Some(pending) => if request.key().newer(pending.key()) {
                Some(request)
            } else {
                Some(pending)
            },
        }
    }

    /// An open, empty latch.
    pub fn new() -> (latch: WakeLatch)
        ensures
            latch == (WakeLatch { pending: None, closed: false }),
            latch.valid(),
    {
        WakeLatch { pending: None, closed: false }
    }

    /// Closes the latch and drops what it holds.
    pub fn close(&mut self)
        ensures
            *final(self) == (WakeLatch { pending: None, closed: true }),
            final(self).valid(),
    {
        self.closed = true;
        self.pending = None;
    }

    /// Offers a request. `Ok(true)` says that the latch took it and a waiting receiver has to
    /// be told.
    pub fn enqueue(&mut self, request: WakeRequest) -> (result: Result<bool, WakeLatchError>)
        requires
            old(self).valid(),
        ensures
            final(self).valid(),
            old(self).closed ==> result == Err::<bool, WakeLatchError>(WakeLatchError::Closed)
                && *final(self) == *old(self),
            !old(self).closed ==> *final(self) == (WakeLatch {
                pending: old(self).offered(request),
                closed: false,
            }) && result == Ok::<bool, WakeLatchError>(match old(self).pending {
                None => true,
                Some(pending) => request.key().newer(pending.key()),
            }),
    {
        if self.closed {
            return Err(WakeLatchError::Closed);
        }
        let notify = match self.pending {
            None => {
                self.pending = Some(request);
                true
            },
            Some(pending) => {
                if request.freshness().is_newer(pending.freshness()) {
                    self.pending = Some(request);
                    true
                } else {
                    false
                }
            },
        };
        Ok(notify)
    }

    /// Takes the pending request; a closed latch says so first.
    pub fn poll_recv(&mut self) -> (found: WakeLatchPoll)
        requires
            old(self).valid(),
        ensures
            *final(self) == (WakeLatch { pending: None, closed: old(self).closed }),
            found == (if old(self).closed {
                WakeLatchPoll::Closed
            } else {
                match old(self).pending {
                    Some(request) => WakeLatchPoll::Request(request),
                    None => WakeLatchPoll::Empty,
                }
            }),
    {
        if self.closed {
            return WakeLatchPoll::Closed;
        }
        match self.pending.take() {
            Some(request) => WakeLatchPoll::Request(request),
            None => WakeLatchPoll::Empty,
        }
    }

    /// Takes the pending request without looking at whether the latch is closed.
    pub fn try_recv(&mut self) -> (request: Option<WakeRequest>)
        ensures
            request == old(self).pending,
            *final(self) == (WakeLatch { pending: None, closed: old(self).closed }),
    {
        self.pending.take()
    }

    /// Whether the latch is closed.
    pub fn is_closed(&self) -> (closed: bool)
        ensures
            closed == self.closed,
    {
        self.closed
    }
}

/// Of two requests that arrive in turn the latch keeps the fresher one, and of equally fresh
/// ones the first; what it held before stays if it is at least as fresh as both.
pub proof fn latch_keeps_the_freshest(latch: WakeLatch, first: WakeRequest, second: WakeRequest)
    requires
        latch.valid(),
        !latch.closed,
    ensures
        ({
            let kept = WakeLatch { pending: latch.offered(first), closed: false }.offered(
                second,
            )->0;
            &&& !first.key().newer(kept.key())
            &&& !second.key().newer(kept.key())
            &&& (latch.pending matches Some(held) ==> !held.key().newer(kept.key()))
            &&& (latch.pending is None && first.key() == second.key() ==> kept == first)
            &&& (kept == first || kept == second || latch.pending == Some(kept))
        }),
{
}

/// A lifecycle after failures in a row.
pub open spec fn failing(lifecycle: LifecycleState, failures: Seq<FailureCategory>) -> LifecycleState
    decreases failures.len(),
{
    if failures.len() == 0 {
        lifecycle
    } else {
        failing(lifecycle, failures.drop_last()).failed(failures.last())
    }
}

/// Failures in a row are counted one by one, and the last one is remembered; the cooldown after
/// them is five, ten, twenty and forty seconds, and one minute from the fifth on. Nothing else of
/// the lifecycle changes by failing.
pub proof fn failures_in_a_row_lengthen_the_cooldown(
    lifecycle: LifecycleState,
    failures: Seq<FailureCategory>,
)
    requires
        lifecycle.failure_streak + failures.len() <= u32::MAX,
    ensures
        failing(lifecycle, failures).failure_streak == lifecycle.failure_streak + failures.len(),
        failures.len() > 0 ==> failing(lifecycle, failures).failure == Some(failures.last()),
        failing(lifecycle, failures).phase == lifecycle.phase,
        failing(lifecycle, failures).launch_generation == lifecycle.launch_generation,
        failing(lifecycle, failures).command_revision == lifecycle.command_revision,
        lifecycle.failure_streak == 0 && failures.len() == 1 ==> backoff(
            failing(lifecycle, failures).failure_streak,
        ) == 5_000_000_000,
        lifecycle.failure_streak == 0 && failures.len() == 2 ==> backoff(
            failing(lifecycle, failures).failure_streak,
        ) == 10_000_000_000,
        lifecycle.failure_streak == 0 && failures.len() == 3 ==> backoff(
            failing(lifecycle, failures).failure_streak,
        ) == 20_000_000_000,
        lifecycle.failure_streak == 0 && failures.len() == 4 ==> backoff(
            failing(lifecycle, failures).failure_streak,
        ) == 40_000_000_000,
        lifecycle.failure_streak == 0 && failures.len() >= 5 ==> backoff(
            failing(lifecycle, failures).failure_streak,
        ) == 60_000_000_000,
    decreases failures.len(),
{
    if failures.len() > 0 {
        failures_in_a_row_lengthen_the_cooldown(lifecycle, failures.drop_last());
    }
}

/// One more failure counts as one more, unless the count is at its end.
pub proof fn failures_are_counted(lifecycle: LifecycleState, failure: FailureCategory)
    ensures
        lifecycle.failure_streak < u32::MAX ==> lifecycle.failed(failure).failure_streak
            == lifecycle.failure_streak + 1,
        lifecycle.failure_streak == u32::MAX ==> lifecycle.failed(failure).failure_streak
            == u32::MAX,
        lifecycle.failed(failure).failure == Some(failure),
{
}

/// A move to another phase begins that phase now and calls off a pending retry; it neither counts
/// as a request or a launch, nor makes failures forgotten.
pub proof fn moves_keep_the_counts(lifecycle: LifecycleState, phase: ServerPhase, now: Nanos)
    ensures
        lifecycle.moved_to(phase, now).phase == phase,
        lifecycle.moved_to(phase, now).phase_started_at == now,
        lifecycle.moved_to(phase, now).retry_at is None,
        lifecycle.moved_to(phase, now).command_revision == lifecycle.command_revision,
        lifecycle.moved_to(phase, now).launch_generation == lifecycle.launch_generation,
        lifecycle.moved_to(phase, now).failure == lifecycle.failure,
        lifecycle.moved_to(phase, now).failure_streak == lifecycle.failure_streak,
{
}

/// A cooldown begins now, ends after its whole length and keeps what failed and how often.
pub proof fn cooldowns_last_their_length(lifecycle: LifecycleState, now: Nanos, delay: int)
    requires
        0 <= delay,
        now + delay <= Nanos::MAX,
    ensures
        lifecycle.cooling_down(now, delay).phase == ServerPhase::Cooldown,
        lifecycle.cooling_down(now, delay).phase_started_at == now,
        lifecycle.cooling_down(now, delay).retry_at matches Some(end) && end - now == delay,
        lifecycle.cooling_down(now, delay).command_revision == lifecycle.command_revision,
        lifecycle.cooling_down(now, delay).launch_generation == lifecycle.launch_generation,
        lifecycle.cooling_down(now, delay).failure == lifecycle.failure,
        lifecycle.cooling_down(now, delay).failure_streak == lifecycle.failure_streak,
{
}

/// A login starts a stopped server exactly if it saw no older request and no older launch, in a
/// phase in which nothing runs and nobody else is there.
pub proof fn wakes_start_what_they_saw_down(request: WakeRequest, current: LifecycleState)
    ensures
        request.starts(current) <==> current.phase == ServerPhase::Stopped
            && request.observed.command_revision == current.command_revision
            && request.observed.launch_generation == current.launch_generation
            && request.observed.phase != ServerPhase::Starting && request.observed.phase
            != ServerPhase::Running && request.observed.phase != ServerPhase::External
            && request.observed.phase != ServerPhase::Conflict,
        request.restarts(current) <==> current.phase == ServerPhase::Stopping && request.observed
            == current,
        request.rechecks(current) <==> current.phase == ServerPhase::Conflict && request.observed
            == current,
{
}

/// A login asks for a retry exactly if it saw the failure that the server is recovering from.
pub proof fn retries_are_for_the_failure_they_saw(request: WakeRequest, current: LifecycleState)
    ensures
        request.retries(current) <==> current.failure is Some && request.observed.failure
            == current.failure && request.observed.failure_streak == current.failure_streak
            && request.observed.command_revision == current.command_revision
            && request.observed.launch_generation == current.launch_generation && (
        request.observed.phase == ServerPhase::Stopping || request.observed.phase
            == ServerPhase::Cooldown) && (current.phase == ServerPhase::Stopping || current.phase
            == ServerPhase::Cooldown),
{
}

/// Freshness is an order: newer commands come first, then newer launches; nothing is newer than
/// itself, and of two that differ one is newer.
pub proof fn freshness_is_an_order(left: FreshnessKey, right: FreshnessKey)
    ensures
        left.command_revision > right.command_revision ==> left.newer(right),
        left.command_revision == right.command_revision ==> (left.newer(right)
            <==> left.launch_generation > right.launch_generation),
        !(left.newer(right) && right.newer(left)),
        left != right ==> left.newer(right) || right.newer(left),
{
}

/// The key of a request is what it saw, and only the running phase has a running cycle: that of
/// the last launch.
pub proof fn running_cycles_are_launches(lifecycle: LifecycleState, request: WakeRequest)
    requires
        request.observed == lifecycle,
    ensures
        request.key().command_revision == lifecycle.command_revision,
        request.key().launch_generation == lifecycle.launch_generation,
        lifecycle.phase == ServerPhase::Running <==> lifecycle.running_cycle() is Some,
        lifecycle.running_cycle() matches Some(cycle) ==> cycle.0 == lifecycle.launch_generation,
{
}

/// A state is sound exactly if it tells of a foreign backend only where one was reached: always as
/// external, never as absent in a conflict, and not at all where the server is known.
pub proof fn sound_states_tell_of_foreign_backends(
    lifecycle: LifecycleState,
    earlier: LifecycleState,
)
    ensures
        lifecycle.phase == ServerPhase::External ==> (lifecycle.valid()
            <==> lifecycle.reconciliation_evidence == ReconciliationEvidence::Positive),
        lifecycle.phase == ServerPhase::Conflict ==> (lifecycle.valid()
            <==> lifecycle.reconciliation_evidence != ReconciliationEvidence::Absent),
        lifecycle.phase != ServerPhase::External && lifecycle.phase != ServerPhase::Conflict
            && lifecycle.phase != ServerPhase::Reconciling ==> (lifecycle.valid()
            <==> lifecycle.reconciliation_evidence == ReconciliationEvidence::Absent),
        lifecycle.may_follow(earlier) <==> lifecycle.command_revision >= earlier.command_revision
            && lifecycle.launch_generation >= earlier.launch_generation,
{
}

/// Of two requests the one that saw more is kept, and the earlier one where they saw the same.
pub proof fn fresher_requests_replace_older_ones(latch: WakeLatch, request: WakeRequest)
    ensures
        latch.pending is None ==> latch.offered(request) == Some(request),
        latch.pending matches Some(pending) ==> latch.offered(request) == (
        if request.observed.command_revision > pending.observed.command_revision || (
        request.observed.command_revision == pending.observed.command_revision
            && request.observed.launch_generation > pending.observed.launch_generation) {
            Some(request)
        } else {
            Some(pending)
        }),
{
}

} // verus!
