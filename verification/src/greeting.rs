//! The entry point's logic: initialise the sink once, then compose the one
//! informational record that a call emits.

use vstd::prelude::*;
use crate::backend;
use crate::level::{Severity, Threshold};
use crate::sink::{after_init, Sink};

verus! {

/// A log record: a severity and a text, with no structured fields.
#[derive(Clone, Debug, PartialEq, Eq)]
pub struct Record {
    pub severity: Severity,
    pub text: String,
}

/// A record as a mathematical value.
pub struct RecordView {
    pub severity: Severity,
    pub text: Seq<char>,
}

impl View for Record {
    type V = RecordView;

    open spec fn view(&self) -> RecordView {
        RecordView { severity: self.severity, text: self.text@ }
    }
}

/// What one call did: whether it was the call that initialised the sink, and
/// the record it emitted, if it emitted one.
#[derive(Clone, Debug, PartialEq, Eq)]
pub struct Outcome {
    pub initialized_now: bool,
    pub record: Option<Record>,
}

/// The threshold that the entry point configures the sink with.
pub open spec fn standard_threshold() -> Threshold {
    Threshold::Debug
}

/// The text of the entry point's record.
pub open spec fn standard_message() -> Seq<char> {
    "Hello from Rust!"@
}

/// The record that a call emits under a process-wide `ceiling`: one
/// informational record with the message when the ceiling admits
/// informational records, none otherwise.
pub open spec fn emitted(message: Seq<char>, ceiling: Threshold) -> Option<RecordView> {
    if ceiling.admits(Severity::Info) {
        Some(RecordView { severity: Severity::Info, text: message })
    } else {
        None
    }
}

/// The view of a record that may be absent.
pub open spec fn view_of(record: Option<Record>) -> Option<RecordView> {
    match record {
        Some(r) => Some(r@),
        None => None,
    }
}

/// Composes the record for `message` under `ceiling`.
pub fn compose(message: &str, ceiling: Threshold) -> (record: Option<Record>)
    ensures
        view_of(record) == emitted(message@, ceiling),
{
    if ceiling.lets_through(Severity::Info) {
        Some(Record { severity: Severity::Info, text: message.to_owned() })
    } else {
        None
    }
}

/// One call of the entry point with a chosen threshold and message.
///
/// The sink is initialised if it was not. The ceiling is then read from the
/// process, so the record is the one that some ceiling gives: the
/// informational record with the message, or none. [`compose`] says which
/// for each ceiling.
pub fn hello_with(sink: &mut Sink, threshold: Threshold, message: &str) -> (outcome: Outcome)
    ensures
        final(sink)@ == after_init(old(sink)@, threshold),
        outcome.initialized_now == (old(sink)@ is None),
        exists|ceiling: Threshold| view_of(outcome.record) == #[trigger] emitted(message@, ceiling),
{
    let initialized_now = sink.init_once(threshold);
    let ceiling = backend::ceiling();
    let record = compose(message, ceiling);
    Outcome { initialized_now, record }
}

/// The entry point: initialise the sink once for debug severity and above,
/// then compose one informational record that says "Hello from Rust!".
pub fn hello(sink: &mut Sink) -> (outcome: Outcome)
    ensures
        final(sink)@ is Some,
        final(sink)@ == after_init(old(sink)@, standard_threshold()),
        outcome.initialized_now == (old(sink)@ is None),
        exists|ceiling: Threshold| view_of(outcome.record) == #[trigger] emitted(standard_message(), ceiling),
{
    let outcome = hello_with(sink, Threshold::Debug, "Hello from Rust!");
    proof {
        let ceiling = choose|ceiling: Threshold|
            view_of(outcome.record) == #[trigger] emitted("Hello from Rust!"@, ceiling);
        assert(view_of(outcome.record) == emitted(standard_message(), ceiling));
    }
    outcome
}

/// A consumer attached at informational severity or below gets exactly one
/// record, informational and with the message; under any stricter ceiling
/// nothing is emitted.
pub proof fn lemma_emitted_when_attached(message: Seq<char>, ceiling: Threshold)
    ensures
        ceiling.rank() >= Threshold::Info.rank() ==> emitted(message, ceiling) == Some(
            RecordView { severity: Severity::Info, text: message },
        ),
        ceiling.rank() < Threshold::Info.rank() ==> emitted(message, ceiling) is None,
{
}

/// Whatever the ceiling, a call emits at most the one informational record
/// with the message, never another.
pub proof fn lemma_emitted_is_the_greeting(message: Seq<char>, ceiling: Threshold)
    ensures
        emitted(message, ceiling) matches Some(record) ==> record.severity == Severity::Info
            && record.text == message,
{
}

/// The sink as the entry point configures it lets the entry point's own
/// record through.
pub proof fn lemma_standard_threshold_admits_greeting()
    ensures
        standard_threshold().admits(Severity::Info),
        emitted(standard_message(), standard_threshold()) == Some(
            RecordView { severity: Severity::Info, text: standard_message() },
        ),
{
}

} // verus!
