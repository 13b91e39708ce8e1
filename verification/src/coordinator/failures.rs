//! The failures of the daemon and its shutdown.

use vstd::prelude::*;
use vstd::string::StringExecFns;

use crate::control::wire::texts;
use crate::text::outcome;

verus! {

/// Texts in a row with a semicolon between them.
pub open spec fn in_a_row(items: Seq<Seq<char>>) -> Seq<char>
    decreases items.len(),
{
    if items.len() == 0 {
        Seq::empty()
    } else if items.len() == 1 {
        items[0]
    } else {
        in_a_row(items.drop_last()) + "; "@ + items.last()
    }
}

/// The result of a daemon with these failures: the first one counts, the others are added.
pub open spec fn daemon_result(failures: Seq<Seq<char>>) -> Result<(), Seq<char>> {
    if failures.len() == 0 {
        Ok(())
    } else if failures.len() == 1 {
        Err(failures[0])
    } else {
        Err(failures[0] + "; additional daemon failures: "@ + in_a_row(failures.skip(1)))
    }
}

/// The failures of the daemon.
pub struct FatalErrors {
    primary: Option<String>,
    additional: Vec<String>,
}

impl FatalErrors {
    #[verifier::type_invariant]
    spec fn well_formed(self) -> bool {
        self.primary is None ==> self.additional@.len() == 0
    }

    /// The failures in the order in which they came.
    pub closed spec fn failures(self) -> Seq<Seq<char>> {
        match self.primary {
            Some(primary) => seq![primary@] + texts(self.additional@),
            None => Seq::empty(),
        }
    }

    /// No failure yet.
    pub fn new() -> (errors: FatalErrors)
        ensures
            errors.failures() == Seq::<Seq<char>>::empty(),
    {
        FatalErrors { primary: None, additional: Vec::new() }
    }

    /// Keeps a failure.
    pub fn record(self, error: String) -> (errors: FatalErrors)
        ensures
            errors.failures() == self.failures().push(error@),
    {
        proof {
            use_type_invariant(&self);
        }
        match self.primary {
            None => {
                let errors = FatalErrors { primary: Some(error), additional: Vec::new() };
                assert(errors.failures() =~= self.failures().push(error@));
                errors
            },
            Some(primary) => {
                let ghost before = self.failures();
                let mut additional = self.additional;
                additional.push(error);
                let errors = FatalErrors { primary: Some(primary), additional };
                assert(errors.failures() =~= before.push(error@));
                errors
            },
        }
    }

    /// The result of the daemon.
    pub fn finish(self) -> (result: Result<(), String>)
        ensures
            outcome(result) == daemon_result(self.failures()),
    {
        proof {
            use_type_invariant(&self);
        }
        let ghost failures = self.failures();
        let primary = match self.primary {
            None => {
                return Ok(());
            },
            Some(primary) => primary,
        };
        assert(failures[0] == primary@);
        assert(failures.skip(1) =~= texts(self.additional@));
        if self.additional.len() == 0 {
            return Err(primary);
        }
        let mut text = primary;
        text.append("; additional daemon failures: ");
        let ghost front = text@;
        let mut at: usize = 0;
        let additional = self.additional;
        while at < additional.len()
            invariant
                at <= additional@.len(),
                text@ == front + in_a_row(texts(additional@.take(at as int))),
            decreases additional@.len() - at,
        {
            proof {
                let next = texts(additional@.take(at + 1));
                assert(next.drop_last() =~= texts(additional@.take(at as int)));
                assert(next.last() == additional@[at as int]@);
                if at == 0 {
                    assert(next[0] == additional@[0]@);
                }
            }
            if at > 0 {
                text.append("; ");
            }
            text.append(additional[at].as_str());
            assert(text@ =~= front + in_a_row(texts(additional@.take(at + 1))));
            at += 1;
        }
        assert(additional@.take(at as int) =~= additional@);
        Err(text)
    }
}

/// The failure that came first stays in front, whatever fails later.
pub proof fn originating_failure_stays_first(failures: Seq<Seq<char>>, later: Seq<char>)
    requires
        failures.len() > 0,
    ensures
        daemon_result(failures.push(later)) matches Err(text) && failures[0].is_prefix_of(text),
        daemon_result(failures) matches Err(text) && failures[0].is_prefix_of(text),
{
    assert(failures.push(later)[0] == failures[0]);
}

/// That the daemon is to shut down, and why.
pub struct Shutdown {
    pub pending: bool,
    pub failures: FatalErrors,
}

/// A [`Shutdown`] with its failures as sequences of characters.
pub struct ShutdownView {
    pub pending: bool,
    pub failures: Seq<Seq<char>>,
}

impl View for Shutdown {
    type V = ShutdownView;

    open spec fn view(&self) -> ShutdownView {
        ShutdownView { pending: self.pending, failures: self.failures.failures() }
    }
}

/// A shutdown after a failure.
pub open spec fn failed(shutdown: ShutdownView, error: Seq<char>) -> ShutdownView {
    ShutdownView { pending: true, failures: shutdown.failures.push(error) }
}

/// A shutdown after it was asked for.
pub open spec fn requested(shutdown: ShutdownView) -> ShutdownView {
    ShutdownView { pending: true, ..shutdown }
}

impl Shutdown {
    /// Nobody has asked for it, and nothing has failed.
    pub fn new() -> (shutdown: Shutdown)
        ensures
            shutdown@ == (ShutdownView { pending: false, failures: Seq::empty() }),
    {
        Shutdown { pending: false, failures: FatalErrors::new() }
    }

    /// Asks for a shutdown. Says whether nobody had before.
    pub fn request(&mut self) -> (first: bool)
        ensures
            first == !old(self)@.pending,
            final(self)@ == requested(old(self)@),
    {
        if self.pending {
            false
        } else {
            self.pending = true;
            true
        }
    }

    /// Whether somebody has asked for it.
    pub fn is_pending(&self) -> (pending: bool)
        ensures
            pending == self@.pending,
    {
        self.pending
    }

    /// Keeps a failure and asks for a shutdown.
    pub fn fail(&mut self, error: String)
        ensures
            final(self)@ == failed(old(self)@, error@),
    {
        let mut failures = FatalErrors::new();
        std::mem::swap(&mut failures, &mut self.failures);
        self.failures = failures.record(error);
        self.pending = true;
    }

    /// The result of the daemon. The failures are told once.
    pub fn finish(&mut self) -> (result: Result<(), String>)
        ensures
            outcome(result) == daemon_result(old(self)@.failures),
            final(self)@ == (ShutdownView { failures: Seq::empty(), ..old(self)@ }),
    {
        let mut failures = FatalErrors::new();
        std::mem::swap(&mut failures, &mut self.failures);
        failures.finish()
    }
}

/// A shutdown that was asked for is never taken back.
pub proof fn shutdowns_are_final(shutdown: ShutdownView, error: Seq<char>)
    ensures
        failed(shutdown, error).pending,
        requested(shutdown).pending,
        requested(requested(shutdown)) == requested(shutdown),
{
}

/// A daemon ends well exactly without a failure; with failures all of them are told in the order
/// in which they came.
pub proof fn all_failures_are_told(failures: Seq<Seq<char>>, later: Seq<char>)
    ensures
        daemon_result(failures) is Ok <==> failures.len() == 0,
        failures.len() == 0 ==> daemon_result(failures.push(later)) == Err::<(), Seq<char>>(later),
        failures.len() == 1 ==> daemon_result(failures.push(later)) == Err::<(), Seq<char>>(
            failures[0] + "; additional daemon failures: "@ + later,
        ),
        failures.len() > 1 ==> (daemon_result(failures) matches Err(text) && daemon_result(
            failures.push(later),
        ) == Err::<(), Seq<char>>(text + "; "@ + later)),
{
    let longer = failures.push(later);
    if failures.len() == 1 {
        assert(longer.skip(1) =~= seq![later]);
    } else if failures.len() > 1 {
        assert(longer.skip(1) =~= failures.skip(1).push(later));
        assert(longer.skip(1).drop_last() =~= failures.skip(1));
        assert(failures[0] + "; additional daemon failures: "@ + in_a_row(longer.skip(1)) =~= (
        failures[0] + "; additional daemon failures: "@ + in_a_row(failures.skip(1))) + "; "@
            + later);
    }
}

/// A failure asks for a shutdown and is noted last; a request notes nothing.
pub proof fn failures_are_noted(shutdown: ShutdownView, error: Seq<char>)
    ensures
        failed(shutdown, error).failures.len() == shutdown.failures.len() + 1,
        failed(shutdown, error).failures.last() == error,
        failed(shutdown, error).failures.drop_last() == shutdown.failures,
        requested(shutdown).failures == shutdown.failures,
{
    assert(failed(shutdown, error).failures.drop_last() =~= shutdown.failures);
}

} // verus!
