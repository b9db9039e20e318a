//! The persisted record of the last check and the name it is kept under.
//!
//! One record is kept for each package. A record is written after every
//! check that came to a version, and never removed.

use crate::time::{elapsed, has_elapsed, Interval, Timestamp};
use vstd::prelude::*;
use vstd::string::*;

verus! {

/// The record that is kept between runs: when the registry was last asked.
#[derive(Clone, Copy, Debug, PartialEq, Eq)]
pub struct Config {
    pub last_checked: Timestamp,
}

/// What is appended to a package name to name its store.
pub open spec fn app_name_suffix() -> Seq<char> {
    "-update-notifier"@
}

/// The name of the store of the package `name`.
pub open spec fn app_name_text(name: Seq<char>) -> Seq<char> {
    name + app_name_suffix()
}

/// The identifier under which the record of the package `name` is kept.
pub fn get_app_name(name: &str) -> (app_name: String)
    ensures
        app_name@ == app_name_text(name@),
{
    let mut app_name = String::from_str(name);
    app_name.append("-update-notifier");
    app_name
}

/// Whether the registry is to be asked at the time `now`: always when no
/// record was found, and else when at least `interval` has passed since the
/// record was written.
pub open spec fn check_is_due(stored: Option<Config>, now: Timestamp, interval: Interval) -> bool {
    match stored {
        Some(config) => elapsed(config.last_checked, now) >= interval.length(),
        None => true,
    }
}

/// Decides whether the registry is to be asked at the time `now`, given the
/// record that was found, if any.
pub fn is_due(stored: Option<Config>, now: Timestamp, interval: Interval) -> (due: bool)
    ensures
        due == check_is_due(stored, now, interval),
{
    match stored {
        Some(config) => has_elapsed(config.last_checked, now, interval),
        None => true,
    }
}

} // verus!
