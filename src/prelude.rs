//! The policies, the level modifiers and the wrapper, in one import. The
//! `Debug` level modifier shares its name with the derive, so it is reached by
//! its path, `log_levels::Debug`.

pub use crate::log_levels::{ErrorLevel, Info, Trace, Warn};
pub use crate::{present, Callsite, Emit, Failure, Ignore, Log, LogSimply, Sysfail};
