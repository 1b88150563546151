//! The calls into the logging backend. Nothing in this file is proved: each
//! function says, at most, what the backend's source shows of it.

use vstd::prelude::*;
use crate::level::Threshold;

verus! {

/// Calls `android_logger::init_once` with a default `android_logger::Config`
/// whose maximum level is `threshold`. The backend installs itself as the
/// process-wide logger unless one is installed already, and reports neither
/// case; so nothing is claimed here.
#[verifier::external_body]
pub(crate) fn install(threshold: Threshold) {
    let filter = match threshold {
        Threshold::Off => log::LevelFilter::Off,
        Threshold::Error => log::LevelFilter::Error,
        Threshold::Warn => log::LevelFilter::Warn,
        Threshold::Info => log::LevelFilter::Info,
        Threshold::Debug => log::LevelFilter::Debug,
        Threshold::Trace => log::LevelFilter::Trace,
    };
    android_logger::init_once(android_logger::Config::default().with_max_level(filter));
}

/// Calls `log::max_level`: the process-wide ceiling on severities at the
/// moment of the call. It is whatever was set last, by anyone in the
/// process; so nothing is claimed of the value.
#[verifier::external_body]
pub(crate) fn ceiling() -> (current: Threshold) {
    match log::max_level() {
        log::LevelFilter::Off => Threshold::Off,
        log::LevelFilter::Error => Threshold::Error,
        log::LevelFilter::Warn => Threshold::Warn,
        log::LevelFilter::Info => Threshold::Info,
        log::LevelFilter::Debug => Threshold::Debug,
        log::LevelFilter::Trace => Threshold::Trace,
    }
}

} // verus!
