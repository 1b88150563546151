//! A native greeting for a managed host: bring up the process-wide logging
//! sink once, then compose the one informational record of a call.
//!
//! The decisions are verified: when the sink is initialised, whether a record
//! passes the process-wide ceiling, and what the record says. The two calls
//! that reach the logging backend are trusted and stand in `backend`. Writing
//! the record out is left to the caller, who gets it back in the outcome.

mod backend;
pub mod greeting;
pub mod level;
pub mod sink;
