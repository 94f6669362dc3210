use vstd::prelude::*;

verus! {

/// How serious a failure is, from `Trace` (least) to `Error` (most), plus the
/// `Silent` sentinel, which never notifies anybody.
#[derive(Clone, Copy, Debug, PartialEq, Eq, Structural)]
pub enum Level {
    Trace,
    Debug,
    Info,
    Warn,
    Error,
    Silent,
}

/// Position of a reporting level in the order `Trace < Debug < Info < Warn < Error`.
/// `Silent` stands outside that order.
pub open spec fn rank(l: Level) -> int {
    match l {
        Level::Trace => 0,
        Level::Debug => 1,
        Level::Info => 2,
        Level::Warn => 3,
        Level::Error => 4,
        Level::Silent => -1,
    }
}

/// A message at `l` passes a sink whose threshold is `min`: neither is
/// `Silent`, and `l` is at least as severe as `min`.
pub open spec fn passes(l: Level, min: Level) -> bool {
    l != Level::Silent && min != Level::Silent && rank(l) >= rank(min)
}

impl Level {
    /// The rank of a reporting level, `None` for `Silent`.
    pub fn severity(self) -> (r: Option<u8>)
        ensures
            self == Level::Silent <==> r is None,
            r matches Some(n) ==> n as int == rank(self),
    {
        match self {
            Level::Trace => Some(0),
            Level::Debug => Some(1),
            Level::Info => Some(2),
            Level::Warn => Some(3),
            Level::Error => Some(4),
            Level::Silent => None,
        }
    }

    /// Whether a message at this level gets through a sink that shows only
    /// messages at `min` or above. A caller asks this before it formats
    /// anything, so that a message nobody will see costs nothing.
    pub fn is_enabled(self, min: Level) -> (r: bool)
        ensures
            r == passes(self, min),
    {
        match (self.severity(), min.severity()) {
            (Some(a), Some(b)) => a >= b,
            _ => false,
        }
    }

    /// Whether this is the `Silent` sentinel.
    pub fn is_silent(self) -> (r: bool)
        ensures
            r == (self == Level::Silent),
    {
        match self {
            Level::Silent => true,
            _ => false,
        }
    }
}

/// Chooses, by type, the level at which [`Log`](crate::Log) and
/// [`LogSimply`](crate::LogSimply) report.
pub trait LogLevelModifier {
    /// The level this modifier names.
    spec fn spec_level() -> Level;

    /// The level this modifier names.
    fn level() -> (r: Level)
        ensures
            r == Self::spec_level(),
    ;
}

/// Report at `Level::Trace`.
pub struct Trace;

/// Report at `Level::Debug`.
pub struct Debug;

/// Report at `Level::Info`.
pub struct Info;

/// Report at `Level::Warn`.
pub struct Warn;

/// Report at `Level::Error`.
pub struct ErrorLevel;

impl LogLevelModifier for Trace {
    open spec fn spec_level() -> Level {
        Level::Trace
    }

    fn level() -> Level {
        Level::Trace
    }
}

impl LogLevelModifier for Debug {
    open spec fn spec_level() -> Level {
        Level::Debug
    }

    fn level() -> Level {
        Level::Debug
    }
}

impl LogLevelModifier for Info {
    open spec fn spec_level() -> Level {
        Level::Info
    }

    fn level() -> Level {
        Level::Info
    }
}

impl LogLevelModifier for Warn {
    open spec fn spec_level() -> Level {
        Level::Warn
    }

    fn level() -> Level {
        Level::Warn
    }
}

impl LogLevelModifier for ErrorLevel {
    open spec fn spec_level() -> Level {
        Level::Error
    }

    fn level() -> Level {
        Level::Error
    }
}

} // verus!
