//! The process-wide logging sink as this library tracks it: an explicit
//! initialise-once guard that remembers how the sink was configured.

use vstd::prelude::*;
use crate::backend;
use crate::level::Threshold;

verus! {

/// The state of the logging sink. It starts uninitialised, is initialised by
/// the first call of [`Sink::init_once`], and stays as that call left it.
#[derive(Debug)]
pub struct Sink {
    configured: Option<Threshold>,
}

/// What a sink holds after an attempt to initialise it with `threshold`:
/// the first attempt configures it, every later one leaves it alone.
pub open spec fn after_init(before: Option<Threshold>, threshold: Threshold) -> Option<Threshold> {
    match before {
        None => Some(threshold),
        Some(kept) => Some(kept),
    }
}

impl View for Sink {
    type V = Option<Threshold>;

    /// `None` while uninitialised, else the threshold it was configured with.
    closed spec fn view(&self) -> Option<Threshold> {
        self.configured
    }
}

impl Sink {
    /// A sink that has not been initialised.
    pub fn new() -> (sink: Sink)
        ensures
            sink@ is None,
    {
        Sink { configured: None }
    }

    /// Whether the sink has been initialised.
    pub fn is_initialized(&self) -> (yes: bool)
        ensures
            yes == (self@ is Some),
    {
        self.configured.is_some()
    }

    /// The threshold the sink was configured with, if it was initialised.
    pub fn threshold(&self) -> (configured: Option<Threshold>)
        ensures
            configured == self@,
    {
        self.configured
    }

    /// Initialises the sink unless that was done before. Only the first call
    /// reaches the backend and fixes the threshold; it returns `true`. Every
    /// later call changes nothing and returns `false`.
    pub fn init_once(&mut self, threshold: Threshold) -> (first: bool)
        ensures
            first == (old(self)@ is None),
            final(self)@ == after_init(old(self)@, threshold),
    {
        if self.configured.is_none() {
            backend::install(threshold);
            self.configured = Some(threshold);
            true
        } else {
            false
        }
    }
}

/// What a sink holds after `calls` attempts in a row to initialise it with
/// `threshold`.
pub open spec fn after_calls(before: Option<Threshold>, threshold: Threshold, calls: nat) -> Option<Threshold>
    decreases calls,
{
    if calls == 0 {
        before
    } else {
        after_init(after_calls(before, threshold, (calls - 1) as nat), threshold)
    }
}

/// Initialisation happens once and lasts: after any attempt the sink is
/// initialised, and a further attempt, with whatever threshold, leaves it
/// exactly as the first one did.
pub proof fn lemma_init_once_lasts(before: Option<Threshold>, first: Threshold, later: Threshold)
    ensures
        after_init(before, first) is Some,
        after_init(after_init(before, first), later) == after_init(before, first),
        before is Some ==> after_init(before, first) == before,
{
}

/// Any number of attempts, one at least, leaves the sink as the first of
/// them did, and initialised.
pub proof fn lemma_calls_collapse(before: Option<Threshold>, threshold: Threshold, calls: nat)
    requires
        calls >= 1,
    ensures
        after_calls(before, threshold, calls) == after_init(before, threshold),
        after_calls(before, threshold, calls) is Some,
    decreases calls,
{
    if calls > 1 {
        lemma_calls_collapse(before, threshold, (calls - 1) as nat);
    } else {
        assert(after_calls(before, threshold, 0) == before);
    }
}

} // verus!
