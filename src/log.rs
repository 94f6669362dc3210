use vstd::prelude::*;

use std::marker::PhantomData;

use crate::log_levels::Warn;
use crate::{Dedup, Failure, Level, LogLevelModifier};

verus! {

/// Write failures to the log at the level that `Lvl` names (`Warn` unless
/// given), throttled: a failure is held back while another with the same
/// identity failed less than its cooldown before.
///
/// Available levels: [`Trace`](crate::log_levels::Trace),
/// [`Debug`](crate::log_levels::Debug), [`Info`](crate::log_levels::Info),
/// [`Warn`], [`ErrorLevel`](crate::log_levels::ErrorLevel).
pub struct Log<T, Lvl = Warn>(pub T, pub PhantomData<Lvl>);

impl<U: From<T>, T: std::fmt::Debug, L> From<T> for Log<U, L> {
    fn from(t: T) -> (r: Self) {
        Log(U::from(t), PhantomData)
    }
}

impl<U: From<T>, T: std::fmt::Debug, L> vstd::std_specs::convert::FromSpecImpl<T> for Log<U, L> {
    open spec fn obeys_from_spec() -> bool {
        <U as vstd::std_specs::convert::FromSpec<T>>::obeys_from_spec()
    }

    open spec fn from_spec(v: T) -> Self {
        Log(<U as vstd::std_specs::convert::FromSpec<T>>::from_spec(v), PhantomData)
    }
}

impl<T: Dedup, Lvl: LogLevelModifier> Failure for Log<T, Lvl> {
    open spec fn spec_level() -> Level {
        Lvl::spec_level()
    }

    open spec fn spec_throttle(&self) -> Option<(Seq<char>, u64)> {
        Some((self.0.spec_identify(), self.0.spec_cooldown()))
    }

    open spec fn spec_uses_callsite() -> bool {
        true
    }

    fn level() -> (r: Level) {
        Lvl::level()
    }

    fn throttle(&self) -> (r: Option<(String, u64)>) {
        Some((self.0.identify(), self.0.cooldown()))
    }

    fn uses_callsite() -> (r: bool) {
        true
    }
}

} // verus!
