//! Severities of records and thresholds of sinks, ordered as the `log`
//! facade orders them: the more severe, the lower the rank.

use vstd::prelude::*;

verus! {

/// How severe a single record is. `Error` is the most severe.
#[derive(Clone, Copy, Debug, PartialEq, Eq, Structural)]
pub enum Severity {
    Error,
    Warn,
    Info,
    Debug,
    Trace,
}

/// The least severe kind of record that a sink still lets through.
/// `Off` lets nothing through, `Trace` everything.
#[derive(Clone, Copy, Debug, PartialEq, Eq, Structural)]
pub enum Threshold {
    Off,
    Error,
    Warn,
    Info,
    Debug,
    Trace,
}

impl Severity {
    /// Position in the order of severities, from 1 (`Error`) to 5 (`Trace`).
    pub open spec fn rank(self) -> nat {
        match self {
            Severity::Error => 1,
            Severity::Warn => 2,
            Severity::Info => 3,
            Severity::Debug => 4,
            Severity::Trace => 5,
        }
    }

    /// The rank as a machine integer.
    pub fn rank_value(self) -> (r: u8)
        ensures
            r == self.rank(),
    {
        match self {
            Severity::Error => 1,
            Severity::Warn => 2,
            Severity::Info => 3,
            Severity::Debug => 4,
            Severity::Trace => 5,
        }
    }
}

impl Threshold {
    /// Position in the order of thresholds, from 0 (`Off`) to 5 (`Trace`).
    pub open spec fn rank(self) -> nat {
        match self {
            Threshold::Off => 0,
            Threshold::Error => 1,
            Threshold::Warn => 2,
            Threshold::Info => 3,
            Threshold::Debug => 4,
            Threshold::Trace => 5,
        }
    }

    /// A threshold lets a record through when the record's severity does not
    /// rank above it.
    pub open spec fn admits(self, severity: Severity) -> bool {
        severity.rank() <= self.rank()
    }

    /// The rank as a machine integer.
    pub fn rank_value(self) -> (r: u8)
        ensures
            r == self.rank(),
    {
        match self {
            Threshold::Off => 0,
            Threshold::Error => 1,
            Threshold::Warn => 2,
            Threshold::Info => 3,
            Threshold::Debug => 4,
            Threshold::Trace => 5,
        }
    }

    /// Whether a record of the given severity passes this threshold.
    pub fn lets_through(self, severity: Severity) -> (pass: bool)
        ensures
            pass == self.admits(severity),
    {
        severity.rank_value() <= self.rank_value()
    }
}

/// `Off` admits nothing and `Trace` admits everything.
pub proof fn lemma_extreme_thresholds(severity: Severity)
    ensures
        !Threshold::Off.admits(severity),
        Threshold::Trace.admits(severity),
{
}

/// Raising a threshold never shuts out a record that passed before.
pub proof fn lemma_admits_monotone(lower: Threshold, higher: Threshold, severity: Severity)
    requires
        lower.rank() <= higher.rank(),
        lower.admits(severity),
    ensures
        higher.admits(severity),
{
}

} // verus!
