//! Connecting to a backend: every address in turn, round after round, until it works or time is
//! up.

use vstd::prelude::*;
use vstd::string::StringExecFns;

use crate::config::hosts::IpAddress;
use crate::endpoint::{endpoint_text, Endpoint, EndpointView};
use crate::supervisor::lifecycle::{Nanos, SECOND};

verus! {

/// How long one attempt may take.
pub const BACKEND_CONNECT_ATTEMPT_LIMIT: Nanos = 1_000_000_000;

/// An address of a backend.
#[derive(Clone, Copy, Debug, PartialEq, Eq, Structural)]
pub struct BackendAddress {
    pub address: IpAddress,
    pub port: u16,
    pub flowinfo: u32,
    pub scope_id: u32,
}

/// Addresses without those that came before.
pub open spec fn distinct(addresses: Seq<BackendAddress>) -> Seq<BackendAddress>
    decreases addresses.len(),
{
    if addresses.len() == 0 {
        Seq::empty()
    } else {
        let earlier = distinct(addresses.drop_last());
        if earlier.contains(addresses.last()) {
            earlier
        } else {
            earlier.push(addresses.last())
        }
    }
}

/// Whether an address occurs.
fn contains_address(addresses: &Vec<BackendAddress>, wanted: BackendAddress) -> (found: bool)
    ensures
        found == addresses@.contains(wanted),
{
    let mut i: usize = 0;
    while i < addresses.len()
        invariant
            i <= addresses@.len(),
            forall|j: int| 0 <= j < i ==> addresses@[j] != wanted,
        decreases addresses@.len() - i,
    {
        if addresses[i] == wanted {
            assert(addresses@[i as int] == wanted);
            return true;
        }
        i += 1;
    }
    false
}

/// Addresses without those that came before.
pub fn unique_addresses(addresses: &Vec<BackendAddress>) -> (unique: Vec<BackendAddress>)
    ensures
        unique@ == distinct(addresses@),
{
    let mut unique: Vec<BackendAddress> = Vec::new();
    let mut i: usize = 0;
    assert(addresses@.take(0) =~= Seq::<BackendAddress>::empty());
    while i < addresses.len()
        invariant
            i <= addresses@.len(),
            unique@ == distinct(addresses@.take(i as int)),
        decreases addresses@.len() - i,
    {
        proof {
            let next = addresses@.take(i + 1);
            assert(next.drop_last() =~= addresses@.take(i as int));
            assert(next.last() == addresses@[i as int]);
        }
        if !contains_address(&unique, addresses[i]) {
            unique.push(addresses[i]);
        }
        i += 1;
    }
    assert(addresses@.take(addresses@.len() as int) =~= addresses@);
    unique
}

/// The same address is never tried twice in a round, and none is left out.
pub proof fn distinct_addresses_are_all(addresses: Seq<BackendAddress>)
    ensures
        distinct(addresses).no_duplicates(),
        forall|address: BackendAddress|
            #[trigger] distinct(addresses).contains(address) <==> addresses.contains(address),
    decreases addresses.len(),
{
    if addresses.len() > 0 {
        let front = addresses.drop_last();
        let last = addresses.last();
        distinct_addresses_are_all(front);
        assert(addresses =~= front.push(last));
        assert forall|address: BackendAddress|
            #[trigger] distinct(addresses).contains(address) <==> addresses.contains(address) by {
            vstd::seq_lib::lemma_seq_contains_after_push(front, last, address);
            vstd::seq_lib::lemma_seq_contains_after_push(distinct(front), last, address);
            assert(distinct(front).contains(address) <==> front.contains(address));
        }
        if !distinct(front).contains(last) {
            let longer = distinct(front).push(last);
            assert forall|i: int, j: int|
                0 <= i < longer.len() && 0 <= j < longer.len() && i != j implies longer[i]
                != longer[j] by {
                if i == longer.len() - 1 {
                    assert(distinct(front)[j] == longer[j]);
                    assert(distinct(front).contains(longer[j]));
                } else if j == longer.len() - 1 {
                    assert(distinct(front)[i] == longer[i]);
                    assert(distinct(front).contains(longer[i]));
                }
            }
        }
    }
}

/// How looking up the addresses of a backend went.
pub enum Resolution {
    Addresses(Vec<BackendAddress>),
    Failed(String),
    TimedOut,
}

/// The text for a backend whose addresses are not known.
pub open spec fn unresolved(endpoint: EndpointView, cause: Seq<char>) -> Seq<char> {
    "could not resolve Minecraft backend "@ + endpoint_text(endpoint.host, endpoint.port) + ": "@
        + cause
}

/// The text for a backend whose addresses are not known.
fn unresolved_text(endpoint: &Endpoint, cause: &str) -> (text: String)
    ensures
        text@ == unresolved(endpoint@, cause@),
{
    let mut text = "could not resolve Minecraft backend ".to_owned();
    text.append(endpoint.to_string().as_str());
    text.append(": ");
    text.append(cause);
    text
}

/// The addresses of a backend, each once.
pub fn connect_backend_with(endpoint: &Endpoint, resolution: Resolution) -> (result: Result<
    Vec<BackendAddress>,
    String,
>)
    ensures
        match resolution {
            Resolution::Addresses(addresses) => if addresses@.len() == 0 {
                result matches Err(text) && text@ == unresolved(
                    endpoint@,
                    "no addresses returned"@,
                )
            } else {
                result matches Ok(unique) && unique@ == distinct(addresses@) && unique@.len() > 0
            },
            Resolution::Failed(cause) => result matches Err(text) && text@ == unresolved(
                endpoint@,
                cause@,
            ),
            Resolution::TimedOut => result matches Err(text) && text@ == unresolved(
                endpoint@,
                "deadline expired"@,
            ),
        },
{
    match resolution {
        Resolution::Addresses(addresses) => {
            let unique = unique_addresses(&addresses);
            proof {
                distinct_addresses_are_all(addresses@);
                if addresses@.len() > 0 {
                    assert(addresses@.contains(addresses@[0]));
                    assert(distinct(addresses@).contains(addresses@[0]));
                }
            }
            if unique.len() == 0 {
                return Err(unresolved_text(endpoint, "no addresses returned"));
            }
            Ok(unique)
        },
        Resolution::Failed(cause) => Err(unresolved_text(endpoint, cause.as_str())),
        Resolution::TimedOut => Err(unresolved_text(endpoint, "deadline expired")),
    }
}

/// Why an attempt failed.
pub enum BackendConnectFailure {
    Transport(String),
    TimedOut,
}

/// The time between the beginnings of two rounds after so many rounds have failed.
pub open spec fn round_spacing(failed_rounds: nat) -> Nanos {
    if failed_rounds == 0 {
        100_000_000
    } else if failed_rounds == 1 {
        200_000_000
    } else if failed_rounds == 2 {
        400_000_000
    } else if failed_rounds == 3 {
        800_000_000
    } else {
        1_000_000_000
    }
}

/// Connecting to a backend, address by address and round by round. Each round begins with the
/// next address.
pub struct BackendConnect {
    pub addresses: usize,
    pub deadline: Nanos,
    /// The address that the round began with.
    pub first_address: usize,
    /// How many addresses of the round have been tried; none before the round has begun.
    pub tried: Option<usize>,
    pub round_started_at: Nanos,
    pub failed_rounds: usize,
    pub last_failure: Option<BackendConnectFailure>,
}

/// What to do next.
#[derive(Clone, Copy, Debug, PartialEq, Eq, Structural)]
pub enum ConnectStep {
    /// Try the address with this index until this moment.
    Attempt { address: usize, until: Nanos },
    /// The round is over. Wait until this moment, if it has not come yet.
    NextRound { at: Nanos },
    /// Time is up.
    GiveUp,
}

/// The earlier of two moments.
pub open spec fn earlier(left: int, right: int) -> int {
    if left <= right {
        left
    } else {
        right
    }
}

impl BackendConnect {
    /// There is an address, and the counters are in range.
    pub open spec fn valid(self) -> bool {
        &&& 0 < self.addresses <= usize::MAX / 2
        &&& self.first_address < self.addresses
        &&& self.tried matches Some(tried) ==> tried <= self.addresses
    }

    /// Nothing has been tried.
    pub fn new(addresses: usize, deadline: Nanos) -> (connect: BackendConnect)
        requires
            0 < addresses <= usize::MAX / 2,
        ensures
            connect.valid(),
            connect == (BackendConnect {
                addresses,
                deadline,
                first_address: 0,
                tried: None,
                round_started_at: 0,
                failed_rounds: 0,
                last_failure: None,
            }),
    {
        BackendConnect {
            addresses,
            deadline,
            first_address: 0,
            tried: None,
            round_started_at: 0,
            failed_rounds: 0,
            last_failure: None,
        }
    }

    /// What to do at `now`.
    pub fn connect_resolved_backend(&mut self, now: Nanos) -> (step: ConnectStep)
        requires
            old(self).valid(),
        ensures
            final(self).valid(),
            final(self).addresses == old(self).addresses,
            final(self).deadline == old(self).deadline,
            final(self).last_failure == old(self).last_failure,
            step matches ConnectStep::Attempt { address, until } ==> address < old(self).addresses
                && until <= old(self).deadline && until - now <= 1_000_000_000 && (until
                == old(self).deadline || until - now == 1_000_000_000),
            ({
                let tried = match old(self).tried {
                    Some(tried) => tried as int,
                    None => 0,
                };
                let started = if old(self).tried is None {
                    now
                } else {
                    old(self).round_started_at
                };
                if tried == old(self).addresses {
                    &&& step == (ConnectStep::NextRound {
                        at: earlier(
                            started + round_spacing(old(self).failed_rounds as nat),
                            old(self).deadline as int,
                        ) as Nanos,
                    })
                    &&& final(self).first_address == (old(self).first_address + 1) % (
                    old(self).addresses as int)
                    &&& final(self).tried is None
                    &&& final(self).failed_rounds == earlier(
                        old(self).failed_rounds + 1,
                        usize::MAX as int,
                    )
                } else if now >= old(self).deadline {
                    &&& step == ConnectStep::GiveUp
                    &&& *final(self) == *old(self)
                } else {
                    &&& step == (ConnectStep::Attempt {
                        address: ((old(self).first_address + tried) % (old(self).addresses as int))
                            as usize,
                        until: earlier(
                            now + BACKEND_CONNECT_ATTEMPT_LIMIT,
                            old(self).deadline as int,
                        ) as Nanos,
                    })
                    &&& final(self).first_address == old(self).first_address
                    &&& final(self).tried == Some((tried + 1) as usize)
                    &&& final(self).round_started_at == started
                    &&& final(self).failed_rounds == old(self).failed_rounds
                }
            }),
    {
        let tried: usize = match self.tried {
            Some(tried) => tried,
            None => 0,
        };
        if tried == self.addresses {
            let spacing: Nanos = match self.failed_rounds {
                0 => 100_000_000,
                1 => 200_000_000,
                2 => 400_000_000,
                3 => 800_000_000,
                _ => 1_000_000_000,
            };
            let next: Nanos = self.round_started_at.saturating_add(spacing);
            let at: Nanos = if next <= self.deadline {
                next
            } else {
                self.deadline
            };
            self.first_address = (self.first_address + 1) % self.addresses;
            self.tried = None;
            self.failed_rounds = self.failed_rounds.saturating_add(1);
            return ConnectStep::NextRound { at };
        }
        if now >= self.deadline {
            return ConnectStep::GiveUp;
        }
        if self.tried.is_none() {
            self.round_started_at = now;
        }
        let address: usize = (self.first_address + tried) % self.addresses;
        let limit: Nanos = now.saturating_add(BACKEND_CONNECT_ATTEMPT_LIMIT);
        let until: Nanos = if limit <= self.deadline {
            limit
        } else {
            self.deadline
        };
        self.tried = Some(tried + 1);
        ConnectStep::Attempt { address, until }
    }

    /// The attempt failed.
    pub fn attempt_failed(&mut self, failure: BackendConnectFailure)
        ensures
            *final(self) == (BackendConnect { last_failure: Some(failure), ..*old(self) }),
    {
        self.last_failure = Some(failure);
    }

    /// The text for a backend that could not be reached in time: the last failure counts.
    pub open spec fn failure_text(self, endpoint: EndpointView) -> Seq<char> {
        "could not connect to Minecraft backend "@ + endpoint_text(endpoint.host, endpoint.port)
            + ": "@ + match self.last_failure {
            Some(BackendConnectFailure::Transport(cause)) => cause@,
            Some(BackendConnectFailure::TimedOut) => "connection attempt timed out"@,
            None => "deadline expired"@,
        }
    }

    /// The text for a backend that could not be reached in time.
    pub fn failure(&self, endpoint: &Endpoint) -> (text: String)
        ensures
            text@ == self.failure_text(endpoint@),
    {
        let mut text = "could not connect to Minecraft backend ".to_owned();
        text.append(endpoint.to_string().as_str());
        text.append(": ");
        match &self.last_failure {
            Some(BackendConnectFailure::Transport(cause)) => {
                text.append(cause.as_str());
            },
            Some(BackendConnectFailure::TimedOut) => {
                text.append("connection attempt timed out");
            },
            None => {
                text.append("deadline expired");
            },
        }
        text
    }
}

/// Rounds come at growing intervals of at most a second.
pub proof fn rounds_slow_down(failed_rounds: nat)
    ensures
        round_spacing(failed_rounds) <= round_spacing(failed_rounds + 1),
        round_spacing(failed_rounds) <= SECOND,
{
}

/// In one round every address is tried exactly once: different turns mean different addresses.
pub proof fn turns_are_different_addresses(
    addresses: int,
    first_address: int,
    turn: int,
    other: int,
)
    requires
        0 <= first_address < addresses,
        0 <= turn < other < addresses,
    ensures
        (first_address + turn) % addresses != (first_address + other) % addresses,
        0 <= (first_address + turn) % addresses < addresses,
{
    let a = first_address + turn;
    let b = first_address + other;
    vstd::arithmetic::div_mod::lemma_fundamental_div_mod(a, addresses);
    vstd::arithmetic::div_mod::lemma_fundamental_div_mod(b, addresses);
    if a % addresses == b % addresses {
        let steps = b / addresses - a / addresses;
        assert(b - a == addresses * steps) by (nonlinear_arith)
            requires
                b == addresses * (b / addresses) + b % addresses,
                a == addresses * (a / addresses) + a % addresses,
                a % addresses == b % addresses,
                steps == b / addresses - a / addresses,
        ;
        assert(steps >= 1 ==> addresses * steps >= addresses) by (nonlinear_arith)
            requires
                addresses > 0,
        ;
        assert(steps <= 0 ==> addresses * steps <= 0) by (nonlinear_arith)
            requires
                addresses > 0,
        ;
    }
}

/// The first round that fails is followed by a tenth of a second, each further one by twice the
/// time, up to a second.
pub proof fn rounds_are_spaced_twice_as_far(failed_rounds: nat)
    ensures
        failed_rounds == 0 ==> round_spacing(failed_rounds) == 100_000_000,
        2 * round_spacing(failed_rounds) <= 1_000_000_000 ==> round_spacing(failed_rounds + 1) == 2
            * round_spacing(failed_rounds),
        2 * round_spacing(failed_rounds) > 1_000_000_000 ==> round_spacing(failed_rounds + 1)
            == 1_000_000_000,
{
}

/// The earlier of two moments is one of them, and no later than either.
pub proof fn the_earlier_is_one_of_both(left: int, right: int)
    ensures
        earlier(left, right) <= left,
        earlier(left, right) <= right,
        earlier(left, right) == left || earlier(left, right) == right,
{
}

/// Addresses are tried in the order in which they were found: the first one stays the first, and
/// what is found later changes nothing of what was found before.
pub proof fn addresses_keep_their_order(
    addresses: Seq<BackendAddress>,
    later: BackendAddress,
)
    ensures
        distinct(addresses.push(later)) == (if addresses.contains(later) {
            distinct(addresses)
        } else {
            distinct(addresses).push(later)
        }),
        distinct(seq![later]) == seq![later],
{
    distinct_addresses_are_all(addresses);
    assert(addresses.push(later).drop_last() =~= addresses);
    let one = seq![later];
    assert(one.drop_last() =~= Seq::<BackendAddress>::empty());
    reveal_with_fuel(distinct, 2);
    assert(distinct(one) =~= one);
}

/// A failed connection tells the endpoint and the last cause.
pub proof fn failed_connections_tell_the_last_cause(
    connect: BackendConnect,
    endpoint: EndpointView,
    cause: Seq<char>,
)
    ensures
        unresolved(endpoint, cause) == "could not resolve Minecraft backend "@ + endpoint_text(
            endpoint.host,
            endpoint.port,
        ) + ": "@ + cause,
        connect.last_failure matches Some(BackendConnectFailure::Transport(text))
            ==> connect.failure_text(endpoint) == "could not connect to Minecraft backend "@
            + endpoint_text(endpoint.host, endpoint.port) + ": "@ + text@,
        connect.last_failure matches Some(BackendConnectFailure::TimedOut)
            ==> connect.failure_text(endpoint) == "could not connect to Minecraft backend "@
            + endpoint_text(endpoint.host, endpoint.port) + ": "@ + "connection attempt timed out"@,
{
}

} // verus!
