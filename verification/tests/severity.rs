use mhlog::{Filter, PrefixClass, Route, Severity, Tint};

const ALL: [Severity; 8] = [
    Severity::Fatal,
    Severity::Error,
    Severity::Warn,
    Severity::Important,
    Severity::Info,
    Severity::Verbose,
    Severity::Debug,
    Severity::Trace,
];

#[test]
fn levels_follow_the_order_of_severity() {
    for (i, s) in ALL.iter().enumerate() {
        assert_eq!(s.level() as usize, i);
    }
}

#[test]
fn alerting_severities_go_to_stderr_by_default() {
    assert!(Severity::Fatal.to_stderr(Route::BySeverity));
    assert!(Severity::Error.to_stderr(Route::BySeverity));
    assert!(Severity::Warn.to_stderr(Route::BySeverity));
    assert!(!Severity::Important.to_stderr(Route::BySeverity));
    assert!(!Severity::Info.to_stderr(Route::BySeverity));
    assert!(!Severity::Verbose.to_stderr(Route::BySeverity));
    assert!(!Severity::Debug.to_stderr(Route::BySeverity));
    assert!(!Severity::Trace.to_stderr(Route::BySeverity));
}

#[test]
fn a_forced_route_overrides_the_severity() {
    for s in ALL.iter() {
        assert!(s.to_stderr(Route::OnlyStderr));
        assert!(!s.to_stderr(Route::OnlyStdout));
    }
}

#[test]
fn the_starting_filter_lets_all_but_switched_severities_pass() {
    let filter = Filter::new();
    assert_eq!(filter.minimum, Severity::Trace);
    assert!(!filter.verbose);
    assert!(!filter.debug);
    assert!(!Severity::Fatal.suppressed(&filter));
    assert!(!Severity::Error.suppressed(&filter));
    assert!(!Severity::Warn.suppressed(&filter));
    assert!(!Severity::Important.suppressed(&filter));
    assert!(!Severity::Info.suppressed(&filter));
    assert!(Severity::Verbose.suppressed(&filter));
    assert!(Severity::Debug.suppressed(&filter));
    assert!(Severity::Trace.suppressed(&filter));
}

#[test]
fn switches_enable_their_own_severities_only() {
    let debug_on = Filter { minimum: Severity::Trace, verbose: false, debug: true };
    assert!(!Severity::Debug.suppressed(&debug_on));
    assert!(Severity::Verbose.suppressed(&debug_on));
    assert!(Severity::Trace.suppressed(&debug_on));

    let verbose_on = Filter { minimum: Severity::Trace, verbose: true, debug: false };
    assert!(Severity::Debug.suppressed(&verbose_on));
    assert!(!Severity::Verbose.suppressed(&verbose_on));
    assert!(!Severity::Trace.suppressed(&verbose_on));
}

#[test]
fn severities_below_the_minimum_are_suppressed() {
    for min in ALL.iter() {
        let filter = Filter { minimum: *min, verbose: true, debug: true };
        for s in ALL.iter() {
            assert_eq!(s.suppressed(&filter), s.level() > min.level());
        }
    }
}

#[test]
fn a_switch_does_not_lift_the_minimum() {
    let filter = Filter { minimum: Severity::Info, verbose: true, debug: true };
    assert!(!Severity::Info.suppressed(&filter));
    assert!(Severity::Verbose.suppressed(&filter));
    assert!(Severity::Debug.suppressed(&filter));
    assert!(Severity::Trace.suppressed(&filter));
}

#[test]
fn prefix_classes_and_tints() {
    assert_eq!(Severity::Fatal.prefix_class(), PrefixClass::Error);
    assert_eq!(Severity::Error.prefix_class(), PrefixClass::Error);
    assert_eq!(Severity::Warn.prefix_class(), PrefixClass::Warning);
    assert_eq!(Severity::Important.prefix_class(), PrefixClass::Info);
    assert_eq!(Severity::Info.prefix_class(), PrefixClass::Info);
    assert_eq!(Severity::Verbose.prefix_class(), PrefixClass::Info);
    assert_eq!(Severity::Debug.prefix_class(), PrefixClass::Debug);
    assert_eq!(Severity::Trace.prefix_class(), PrefixClass::Debug);

    assert_eq!(Severity::Fatal.tint(), Tint::Red);
    assert_eq!(Severity::Error.tint(), Tint::Red);
    assert_eq!(Severity::Warn.tint(), Tint::Yellow);
    assert_eq!(Severity::Important.tint(), Tint::Plain);
    assert_eq!(Severity::Info.tint(), Tint::Plain);
    assert_eq!(Severity::Verbose.tint(), Tint::Plain);
    assert_eq!(Severity::Debug.tint(), Tint::Dim);
    assert_eq!(Severity::Trace.tint(), Tint::Dim);
}

#[test]
fn level_names_are_read_in_any_case() {
    assert_eq!(Severity::from_name("Error"), Severity::Error);
    assert_eq!(Severity::from_name("ERROR"), Severity::Error);
    assert_eq!(Severity::from_name("error"), Severity::Error);
    assert_eq!(Severity::from_name("eRrOr"), Severity::Error);
}

#[test]
fn every_level_name_is_read() {
    assert_eq!(Severity::from_name("fatal"), Severity::Fatal);
    assert_eq!(Severity::from_name("error"), Severity::Error);
    assert_eq!(Severity::from_name("warning"), Severity::Warn);
    assert_eq!(Severity::from_name("important"), Severity::Important);
    assert_eq!(Severity::from_name("info"), Severity::Info);
    assert_eq!(Severity::from_name("verbose"), Severity::Verbose);
    assert_eq!(Severity::from_name("debug"), Severity::Debug);
    assert_eq!(Severity::from_name("TRACE"), Severity::Trace);
}

#[test]
fn every_level_name_is_read_in_capitals() {
    assert_eq!(Severity::from_name("FATAL"), Severity::Fatal);
    assert_eq!(Severity::from_name("ERROR"), Severity::Error);
    assert_eq!(Severity::from_name("WARNING"), Severity::Warn);
    assert_eq!(Severity::from_name("IMPORTANT"), Severity::Important);
    assert_eq!(Severity::from_name("INFO"), Severity::Info);
    assert_eq!(Severity::from_name("VERBOSE"), Severity::Verbose);
    assert_eq!(Severity::from_name("DEBUG"), Severity::Debug);
    assert_eq!(Severity::from_name("TRACE"), Severity::Trace);
}

#[test]
fn ranks_are_distinct_and_ordered() {
    for (i, a) in ALL.iter().enumerate() {
        for (j, b) in ALL.iter().enumerate() {
            assert_eq!(a.level() == b.level(), i == j);
            assert_eq!(a.level() < b.level(), i < j);
        }
        assert!(a.level() <= 7);
    }
}

#[test]
fn unknown_level_names_give_important() {
    assert_eq!(Severity::from_name(""), Severity::Important);
    assert_eq!(Severity::from_name("loud"), Severity::Important);
    assert_eq!(Severity::from_name(" error"), Severity::Important);
    assert_eq!(Severity::from_name("errors"), Severity::Important);
    assert_eq!(Severity::from_name("ERRÖR"), Severity::Important);
    assert_eq!(Severity::from_name("debu"), Severity::Important);
}

#[test]
fn an_absent_setting_gives_important() {
    assert_eq!(Severity::from_setting(None), Severity::Important);
    assert_eq!(Severity::from_setting(Some("Debug")), Severity::Debug);
    assert_eq!(Severity::from_setting(Some("nonsense")), Severity::Important);
}

#[test]
fn style_carries_text_tint_and_stream() {
    let styled = Severity::Error.style("boom".to_string(), Route::BySeverity);
    assert_eq!(styled.text, "boom");
    assert_eq!(styled.tint, Tint::Red);
    assert!(styled.for_stderr);

    let styled = Severity::Debug.style("hm".to_string(), Route::BySeverity);
    assert_eq!(styled.text, "hm");
    assert_eq!(styled.tint, Tint::Dim);
    assert!(!styled.for_stderr);

    let styled = Severity::Info.style("ok".to_string(), Route::OnlyStderr);
    assert_eq!(styled.tint, Tint::Plain);
    assert!(styled.for_stderr);
}
