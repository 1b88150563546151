use rust_android_app::level::{Severity, Threshold};

fn severities() -> [Severity; 5] {
    [Severity::Error, Severity::Warn, Severity::Info, Severity::Debug, Severity::Trace]
}

fn thresholds() -> [Threshold; 6] {
    [
        Threshold::Off,
        Threshold::Error,
        Threshold::Warn,
        Threshold::Info,
        Threshold::Debug,
        Threshold::Trace,
    ]
}

#[test]
fn it_works() {
    assert_eq!(2 + 2, 4);
}

#[test]
fn severity_ranks_run_from_one_to_five() {
    assert_eq!(Severity::Error.rank_value(), 1u8);
    assert_eq!(Severity::Warn.rank_value(), 2u8);
    assert_eq!(Severity::Info.rank_value(), 3u8);
    assert_eq!(Severity::Debug.rank_value(), 4u8);
    assert_eq!(Severity::Trace.rank_value(), 5u8);
}

#[test]
fn threshold_ranks_run_from_zero_to_five() {
    assert_eq!(Threshold::Off.rank_value(), 0u8);
    assert_eq!(Threshold::Error.rank_value(), 1u8);
    assert_eq!(Threshold::Warn.rank_value(), 2u8);
    assert_eq!(Threshold::Info.rank_value(), 3u8);
    assert_eq!(Threshold::Debug.rank_value(), 4u8);
    assert_eq!(Threshold::Trace.rank_value(), 5u8);
}

#[test]
fn ranks_agree_with_the_log_facade() {
    assert!(log::Level::Error <= log::LevelFilter::Error);
    assert!(!(log::Level::Warn <= log::LevelFilter::Error));
    assert!(Threshold::Error.lets_through(Severity::Error));
    assert!(!Threshold::Error.lets_through(Severity::Warn));
    assert!(log::Level::Info <= log::LevelFilter::Debug);
    assert!(Threshold::Debug.lets_through(Severity::Info));
    assert!(!(log::Level::Trace <= log::LevelFilter::Debug));
    assert!(!Threshold::Debug.lets_through(Severity::Trace));
}

#[test]
fn off_lets_nothing_through() {
    for severity in severities() {
        assert!(!Threshold::Off.lets_through(severity));
    }
}

#[test]
fn trace_lets_everything_through() {
    for severity in severities() {
        assert!(Threshold::Trace.lets_through(severity));
    }
}

#[test]
fn lets_through_is_the_comparison_of_ranks() {
    for threshold in thresholds() {
        for severity in severities() {
            assert_eq!(
                threshold.lets_through(severity),
                severity.rank_value() <= threshold.rank_value()
            );
        }
    }
}

#[test]
fn a_higher_threshold_keeps_what_a_lower_one_lets_through() {
    for lower in thresholds() {
        for higher in thresholds() {
            if lower.rank_value() <= higher.rank_value() {
                for severity in severities() {
                    if lower.lets_through(severity) {
                        assert!(higher.lets_through(severity));
                    }
                }
            }
        }
    }
}

#[test]
fn debug_threshold_lets_info_through_but_not_trace() {
    assert!(Threshold::Debug.lets_through(Severity::Error));
    assert!(Threshold::Debug.lets_through(Severity::Warn));
    assert!(Threshold::Debug.lets_through(Severity::Info));
    assert!(Threshold::Debug.lets_through(Severity::Debug));
    assert!(!Threshold::Debug.lets_through(Severity::Trace));
}
