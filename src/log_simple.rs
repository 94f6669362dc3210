use vstd::prelude::*;

use std::marker::PhantomData;

use crate::log_levels::Warn;
use crate::{Failure, Level, LogLevelModifier};

verus! {

/// Write every failure to the log at the level that `Lvl` names, with no
/// throttling: it needs no clock, but a unit that fails on every run floods
/// the log.
pub struct LogSimply<T, Lvl = Warn>(pub T, pub PhantomData<Lvl>);

impl<U: From<T>, T: std::fmt::Debug, L> From<T> for LogSimply<U, L> {
    fn from(t: T) -> (r: Self) {
        LogSimply(U::from(t), PhantomData)
    }
}

impl<U: From<T>, T: std::fmt::Debug, L> vstd::std_specs::convert::FromSpecImpl<T> for LogSimply<U, L> {
    open spec fn obeys_from_spec() -> bool {
        <U as vstd::std_specs::convert::FromSpec<T>>::obeys_from_spec()
    }

    open spec fn from_spec(v: T) -> Self {
        LogSimply(<U as vstd::std_specs::convert::FromSpec<T>>::from_spec(v), PhantomData)
    }
}

impl<T, Lvl: LogLevelModifier> Failure for LogSimply<T, Lvl> {
    open spec fn spec_level() -> Level {
        Lvl::spec_level()
    }

    open spec fn spec_throttle(&self) -> Option<(Seq<char>, u64)> {
        None
    }

    open spec fn spec_uses_callsite() -> bool {
        true
    }

    fn level() -> (r: Level) {
        Lvl::level()
    }

    fn throttle(&self) -> (r: Option<(String, u64)>) {
        None
    }

    fn uses_callsite() -> (r: bool) {
        true
    }
}

} // verus!
