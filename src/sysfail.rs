use vstd::prelude::*;
use vstd::string::StringExecFns;

use std::marker::PhantomData;

use crate::logged_errors::notify_due;
use crate::{Failure, Level, LoggedErrors};

verus! {

/// The message that stands for a unit of work that failed by producing no
/// value at all.
pub const NO_VALUE: &'static str = "no value present";

/// The name of the one structured field that a log line fills.
pub const MESSAGE_FIELD: &'static str = "message";

/// Turns "no value present" into a declared failure: `Some(v)` gives `Ok(v)`,
/// `None` gives `Err(NO_VALUE)`, never an empty payload.
pub fn present<T>(value: Option<T>) -> (r: Result<T, &'static str>)
    ensures
        value matches Some(v) ==> r == Ok::<T, &'static str>(v),
        value is None ==> (r matches Err(m) && m@ == NO_VALUE@),
{
    match value {
        Some(v) => Ok(v),
        None => Err(NO_VALUE),
    }
}

/// Where a wrapped unit of work was defined, fixed once for its lifetime so
/// that all its log lines carry the same metadata.
pub struct Callsite {
    /// The source file.
    pub file: String,
    /// The line in that file.
    pub line: u32,
    /// The qualified name of the unit of work: its module path, `::`, its name.
    pub name: String,
}

impl Callsite {
    /// The callsite of the unit of work `function`, defined in `module` at
    /// `file`:`line`.
    pub fn new(file: &str, line: u32, module: &str, function: &str) -> (r: Callsite)
        ensures
            r.file@ == file@,
            r.line == line,
            r.name@ == module@ + seq![':', ':'] + function@,
    {
        let mut name = String::from_str(module);
        name.append("::");
        name.append(function);
        proof {
            reveal_strlit("::");
        }
        Callsite { file: String::from_str(file), line, name }
    }

    /// The structured field that carries the message.
    pub fn field(&self) -> (r: &'static str)
        ensures
            r@ == MESSAGE_FIELD@,
    {
        MESSAGE_FIELD
    }
}

/// One run of a wrapped unit of work, given the cache `seen` before it, the
/// time `now` and what the unit's own logic produced: the cache after it, and
/// the failure to report, if any.
///
/// Success ends the run. A `Silent` policy ends it too, without the cache.
/// A policy that does not throttle reports every failure; one that does
/// records the identity at `now` and reports only when [`notify_due`] says so.
pub open spec fn step<F: Failure>(
    seen: Map<Seq<char>, u64>,
    now: u64,
    outcome: Result<(), F>,
) -> (Map<Seq<char>, u64>, Option<F>) {
    match outcome {
        Ok(()) => (seen, None),
        Err(e) => if F::spec_level() == Level::Silent {
            (seen, None)
        } else {
            match e.spec_throttle() {
                None => (seen, Some(e)),
                Some((id, cooldown)) => (
                    seen.insert(id, now),
                    if notify_due(seen, id, now, cooldown) {
                        Some(e)
                    } else {
                        None
                    },
                ),
            }
        },
    }
}

/// A unit of work wrapped with the policy `F`: it owns its own deduplication
/// cache, shared with no other unit, and the callsite that log lines carry.
pub struct Sysfail<F> {
    logged: LoggedErrors,
    callsite: Option<Callsite>,
    policy: PhantomData<F>,
}

impl<F: Failure> View for Sysfail<F> {
    type V = Map<Seq<char>, u64>;

    closed spec fn view(&self) -> Map<Seq<char>, u64> {
        self.logged@
    }
}

impl<F: Failure> Sysfail<F> {
    /// Wraps a unit of work defined at `callsite`. The callsite is kept only
    /// where the policy writes log lines; the cache starts empty.
    pub fn new(callsite: Callsite) -> (r: Self)
        ensures
            r@ == Map::<Seq<char>, u64>::empty(),
            r.spec_callsite() == (if F::spec_uses_callsite() {
                Some(callsite)
            } else {
                None
            }),
    {
        let callsite = if F::uses_callsite() {
            Some(callsite)
        } else {
            None
        };
        Sysfail { logged: LoggedErrors::new(), callsite, policy: PhantomData }
    }

    /// The callsite that this unit keeps.
    pub closed spec fn spec_callsite(&self) -> Option<Callsite> {
        self.callsite
    }

    /// The callsite that reports carry, where the policy writes log lines.
    pub fn callsite(&self) -> (r: Option<&Callsite>)
        ensures
            r matches Some(c) ==> self.spec_callsite() == Some(*c),
            r is None ==> self.spec_callsite() is None,
    {
        match &self.callsite {
            Some(c) => Some(c),
            None => None,
        }
    }

    /// The cache of this unit of work.
    pub fn logged(&self) -> (r: &LoggedErrors)
        ensures
            r@ == self@,
    {
        &self.logged
    }

    /// Takes what one run of the unit's logic produced at time `now` and
    /// returns the failure to report, if any; see [`step`].
    pub fn handle(&mut self, now: u64, outcome: Result<(), F>) -> (r: Option<F>)
        ensures
            (final(self)@, r) == step(old(self)@, now, outcome),
            final(self).spec_callsite() == old(self).spec_callsite(),
    {
        match outcome {
            Ok(()) => None,
            Err(e) => {
                if F::level().is_silent() {
                    None
                } else {
                    match e.throttle() {
                        None => Some(e),
                        Some((id, cooldown)) => {
                            if self.logged.notify_if_due(now, id, cooldown) {
                                Some(e)
                            } else {
                                None
                            }
                        },
                    }
                }
            },
        }
    }

    /// Runs the unit's logic `work` at time `now`, then [`Self::handle`]s what
    /// it produced. A failure never leaves this function except as the
    /// returned report.
    pub fn run<W: FnOnce() -> Result<(), F>>(&mut self, now: u64, work: W) -> (r: Option<F>)
        requires
            work.requires(()),
        ensures
            exists|outcome: Result<(), F>|
                work.ensures((), outcome) && (final(self)@, r) == #[trigger] step(old(self)@, now, outcome),
            final(self).spec_callsite() == old(self).spec_callsite(),
    {
        let outcome = work();
        self.handle(now, outcome)
    }
}

/// A policy at the `Silent` level never reads or writes the cache and never
/// reports, whatever the unit of work produced.
pub proof fn lemma_silent_bypass<F: Failure>(seen: Map<Seq<char>, u64>, now: u64, outcome: Result<(), F>)
    requires
        F::spec_level() == Level::Silent,
    ensures
        step(seen, now, outcome) == (seen, None::<F>),
{
}

/// A run that succeeds leaves the cache as it was and reports nothing.
pub proof fn lemma_success_purity<F: Failure>(seen: Map<Seq<char>, u64>, now: u64)
    ensures
        step(seen, now, Ok::<(), F>(())) == (seen, None::<F>),
{
}

} // verus!
