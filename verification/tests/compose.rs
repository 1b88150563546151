use rust_android_app::greeting::{compose, Record};
use rust_android_app::level::{Severity, Threshold};

fn greeting() -> Record {
    Record { severity: Severity::Info, text: String::from("Hello from Rust!") }
}

#[test]
fn consumer_at_debug_gets_the_greeting() {
    assert_eq!(compose("Hello from Rust!", Threshold::Debug), Some(greeting()));
}

#[test]
fn consumer_at_info_or_trace_gets_the_greeting() {
    assert_eq!(compose("Hello from Rust!", Threshold::Info), Some(greeting()));
    assert_eq!(compose("Hello from Rust!", Threshold::Trace), Some(greeting()));
}

#[test]
fn no_consumer_means_no_record() {
    assert_eq!(compose("Hello from Rust!", Threshold::Off), None);
}

#[test]
fn stricter_ceilings_drop_the_record() {
    assert_eq!(compose("Hello from Rust!", Threshold::Error), None);
    assert_eq!(compose("Hello from Rust!", Threshold::Warn), None);
}

#[test]
fn the_record_carries_the_message_given() {
    let record = compose("another message", Threshold::Info);
    assert_eq!(
        record,
        Some(Record { severity: Severity::Info, text: String::from("another message") })
    );
    assert_eq!(
        compose("", Threshold::Trace),
        Some(Record { severity: Severity::Info, text: String::new() })
    );
}

#[test]
fn composing_twice_gives_identical_records() {
    let first = compose("Hello from Rust!", Threshold::Debug);
    let second = compose("Hello from Rust!", Threshold::Debug);
    assert_eq!(first, second);
}
