//! Throttled update notices for command-line programs.
//!
//! A program asks at start-up whether the registry lists a release other than
//! the one that is running. The answer costs a network round trip, so the
//! check is skipped while the previous one is younger than an interval that
//! the caller chooses.

pub mod check;
pub mod error;
pub mod notice;
pub mod registry;
pub mod store;
pub mod time;
