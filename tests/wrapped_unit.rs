use std::marker::PhantomData;

use bevy_mod_sysfail::log_levels::{ErrorLevel, Info, Trace, Warn};
use bevy_mod_sysfail::{
    present, Callsite, Emit, Failure, Ignore, Level, Log, LogLevelModifier, LogSimply, Sysfail,
    NO_VALUE,
};

fn site() -> Callsite {
    Callsite::new("src/systems.rs", 42, "game::systems", "drag_gizmo")
}

fn failing_log(msg: &'static str) -> Result<(), Log<&'static str>> {
    Err(msg)?;
    Ok(())
}

#[test]
fn success_leaves_cache_untouched() {
    let mut unit: Sysfail<Log<&'static str>> = Sysfail::new(site());
    for t in 0..10 {
        assert!(unit.handle(t * 1000, Ok(())).is_none());
    }
    assert_eq!(unit.logged().len(), 0);
    assert!(unit.run(5, || Ok(())).is_none());
    assert_eq!(unit.logged().len(), 0);
}

#[test]
fn silent_policy_never_reports() {
    let mut unit: Sysfail<Ignore> = Sysfail::new(site());
    let mut reports = 0;
    for t in 0..10 {
        if unit.handle(t, Err(Ignore)).is_some() {
            reports += 1;
        }
        if unit.run(t, || Err(Ignore::from(()))).is_some() {
            reports += 1;
        }
    }
    assert_eq!(reports, 0);
    assert_eq!(unit.logged().len(), 0);
    assert!(unit.callsite().is_none());
}

#[test]
fn scenario_a_through_the_unit() {
    let mut unit: Sysfail<Log<&'static str>> = Sysfail::new(site());
    let at_0 = unit.run(0, || failing_log("X"));
    let at_1200 = unit.run(1200, || failing_log("X"));
    assert_eq!(at_0.map(|l| l.0), Some("X"));
    assert_eq!(at_1200.map(|l| l.0), Some("X"));
    let mut other: Sysfail<Log<&'static str>> = Sysfail::new(site());
    assert!(other.run(0, || failing_log("X")).is_some());
    assert!(other.run(500, || failing_log("X")).is_none());
    assert_eq!(other.logged().last_seen("X"), Some(500));
}

#[test]
fn scenario_b_units_do_not_share_a_cache() {
    let mut unit_a: Sysfail<Log<&'static str>> = Sysfail::new(site());
    let mut unit_b: Sysfail<Log<&'static str>> = Sysfail::new(site());
    assert!(unit_a.run(0, || failing_log("X")).is_some());
    assert!(unit_b.run(0, || failing_log("X")).is_some());
}

#[derive(Debug, PartialEq, Clone)]
struct E {
    code: u32,
}

#[test]
fn scenario_c_emit_forwards_the_value() {
    let mut unit: Sysfail<Emit<E>> = Sysfail::new(site());
    let sent = unit.run(0, || Err(Emit::from(E { code: 42 })));
    assert_eq!(sent.map(|e| e.0), Some(E { code: 42 }));
    let again = unit.handle(0, Err(Emit(E { code: 42 })));
    assert_eq!(again.map(|e| e.0), Some(E { code: 42 }));
    assert_eq!(unit.logged().len(), 0);
    assert!(unit.callsite().is_none());
}

#[test]
fn scenario_d_missing_value_carries_the_default_message() {
    let mut unit: Sysfail<LogSimply<&'static str>> = Sysfail::new(site());
    let report = unit.run(0, || {
        let _found: u32 = present(None)?;
        Ok(())
    });
    let message = report.map(|l| l.0);
    assert_eq!(message, Some("no value present"));
    assert_eq!(NO_VALUE, "no value present");
    assert_eq!(present(Some(7u8)), Ok(7u8));
    assert_eq!(present::<u8>(None), Err("no value present"));
}

#[test]
fn log_simply_reports_every_failure() {
    let mut unit: Sysfail<LogSimply<&'static str>> = Sysfail::new(site());
    for t in 0..4 {
        let r = unit.handle(t, Err(LogSimply("X", PhantomData)));
        assert_eq!(r.map(|l| l.0), Some("X"));
    }
    assert_eq!(unit.logged().len(), 0);
}

#[test]
fn log_reports_per_identity() {
    let mut unit: Sysfail<Log<&'static str, ErrorLevel>> = Sysfail::new(site());
    assert!(unit.handle(0, Err(Log("X", PhantomData))).is_some());
    assert!(unit.handle(0, Err(Log("Y", PhantomData))).is_some());
    assert!(unit.handle(100, Err(Log("X", PhantomData))).is_none());
    assert!(unit.handle(1100, Err(Log("X", PhantomData))).is_some());
    assert_eq!(unit.logged().len(), 2);
}

#[test]
fn callsite_is_kept_for_log_policies() {
    let unit: Sysfail<Log<&'static str>> = Sysfail::new(site());
    let c = unit.callsite().expect("log policies carry a callsite");
    assert_eq!(c.file, "src/systems.rs");
    assert_eq!(c.line, 42);
    assert_eq!(c.name, "game::systems::drag_gizmo");
    assert_eq!(c.field(), "message");
    let simple: Sysfail<LogSimply<&'static str>> = Sysfail::new(site());
    assert!(simple.callsite().is_some());
}

#[test]
fn policy_levels() {
    assert_eq!(<Log<&'static str> as Failure>::level(), Level::Warn);
    assert_eq!(<Log<&'static str, ErrorLevel> as Failure>::level(), Level::Error);
    assert_eq!(<LogSimply<&'static str, bevy_mod_sysfail::log_levels::Debug> as Failure>::level(), Level::Debug);
    assert_eq!(<Emit<u8> as Failure>::level(), Level::Info);
    assert_eq!(<Ignore as Failure>::level(), Level::Silent);
    assert_eq!(Trace::level(), Level::Trace);
    assert_eq!(Info::level(), Level::Info);
    assert_eq!(Warn::level(), Level::Warn);
    assert!(<Log<&'static str> as Failure>::uses_callsite());
    assert!(!<Emit<u8> as Failure>::uses_callsite());
    assert_eq!(Log::<&'static str>::from("X").throttle(), Some(("X".to_string(), 1000)));
    assert_eq!(LogSimply::<&'static str>::from("X").throttle(), None);
}

#[test]
fn level_filter() {
    assert!(Level::Error.is_enabled(Level::Warn));
    assert!(Level::Warn.is_enabled(Level::Warn));
    assert!(!Level::Info.is_enabled(Level::Warn));
    assert!(Level::Trace.is_enabled(Level::Trace));
    assert!(!Level::Silent.is_enabled(Level::Trace));
    assert!(!Level::Error.is_enabled(Level::Silent));
    assert_eq!(Level::Trace.severity(), Some(0));
    assert_eq!(Level::Error.severity(), Some(4));
    assert_eq!(Level::Silent.severity(), None);
    assert!(Level::Silent.is_silent());
    assert!(!Level::Debug.is_silent());
}
