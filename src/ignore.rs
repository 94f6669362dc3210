use vstd::prelude::*;

use crate::{Failure, Level};

verus! {

/// Do nothing with failures: the policy is `Silent`, needs no clock and no
/// cache, and never reports.
pub struct Ignore;

impl<T: std::fmt::Debug> From<T> for Ignore {
    fn from(_value: T) -> (r: Self) {
        Ignore
    }
}

impl<T: std::fmt::Debug> vstd::std_specs::convert::FromSpecImpl<T> for Ignore {
    open spec fn obeys_from_spec() -> bool {
        true
    }

    open spec fn from_spec(v: T) -> Self {
        Ignore
    }
}

impl Failure for Ignore {
    open spec fn spec_level() -> Level {
        Level::Silent
    }

    open spec fn spec_throttle(&self) -> Option<(Seq<char>, u64)> {
        None
    }

    open spec fn spec_uses_callsite() -> bool {
        false
    }

    fn level() -> (r: Level) {
        Level::Silent
    }

    fn throttle(&self) -> (r: Option<(String, u64)>) {
        None
    }

    fn uses_callsite() -> (r: bool) {
        false
    }
}

} // verus!
