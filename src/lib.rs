//! Failure policies for recurring units of work.
//!
//! A unit of work (a callback that a scheduler runs again and again, with no
//! useful return value) may end in a declared failure. The [`Failure`] policy
//! chosen when the unit is wrapped decides what becomes of it: nothing, a log
//! line throttled per error identity, or a value forwarded to a channel. The
//! wrapped unit itself never fails.

use vstd::prelude::*;

pub mod dedup;
pub mod emit;
pub mod ignore;
pub mod log;
pub mod log_levels;
pub mod log_simple;
pub mod logged_errors;
pub mod prelude;
pub mod sysfail;

pub use dedup::{Dedup, DEFAULT_COOLDOWN_MS};
pub use emit::Emit;
pub use ignore::Ignore;
pub use log::Log;
pub use log_levels::{Level, LogLevelModifier};
pub use log_simple::LogSimply;
pub use logged_errors::LoggedErrors;
pub use sysfail::{present, Callsite, Sysfail, NO_VALUE};

verus! {

/// The error side of a wrapped unit of work: a policy that says what happens
/// when the unit fails with a value of this type.
///
/// The policy is chosen once, by type, when the unit is wrapped.
pub trait Failure: Sized {
    /// The level at which this policy reports. `Silent` never reports.
    spec fn spec_level() -> Level;

    /// Identity and cooldown under which this failure is throttled, or `None`
    /// where the policy reports every failure.
    spec fn spec_throttle(&self) -> Option<(Seq<char>, u64)>;

    /// Whether a report carries the callsite of the unit of work (the
    /// policies that write log lines).
    spec fn spec_uses_callsite() -> bool;

    /// The level at which this policy reports.
    fn level() -> (r: Level)
        ensures
            r == Self::spec_level(),
    ;

    /// The identity and cooldown (in milliseconds) that this failure is
    /// throttled under, where the policy throttles.
    fn throttle(&self) -> (r: Option<(String, u64)>)
        ensures
            match r {
                Some((id, cooldown)) => self.spec_throttle() == Some((id@, cooldown)),
                None => self.spec_throttle() is None,
            },
    ;

    /// Whether reports under this policy carry the unit's callsite.
    fn uses_callsite() -> (r: bool)
        ensures
            r == Self::spec_uses_callsite(),
    ;
}

} // verus!
