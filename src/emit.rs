use vstd::prelude::*;

use crate::{Failure, Level};

verus! {

/// Forward the failure value itself to an output channel, unformatted and
/// never throttled: the consumers of the channel decide what is a repeat.
pub struct Emit<E>(pub E);

impl<E> From<E> for Emit<E> {
    fn from(value: E) -> (r: Self) {
        Emit(value)
    }
}

impl<E> vstd::std_specs::convert::FromSpecImpl<E> for Emit<E> {
    open spec fn obeys_from_spec() -> bool {
        true
    }

    open spec fn from_spec(v: E) -> Self {
        Emit(v)
    }
}

impl<E> Failure for Emit<E> {
    open spec fn spec_level() -> Level {
        Level::Info
    }

    open spec fn spec_throttle(&self) -> Option<(Seq<char>, u64)> {
        None
    }

    open spec fn spec_uses_callsite() -> bool {
        false
    }

    fn level() -> (r: Level) {
        Level::Info
    }

    fn throttle(&self) -> (r: Option<(String, u64)>) {
        None
    }

    fn uses_callsite() -> (r: bool) {
        false
    }
}

} // verus!
