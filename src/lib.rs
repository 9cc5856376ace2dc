//! Tracks named time stamps through a pause / resume / finish lifecycle and
//! renders them as aligned text tables.
use vstd::prelude::*;

pub mod args_parser;
pub mod chrono_utility;
pub mod format_utils;
pub mod moment;
pub mod time_entities;

verus! {

/// Where the stored time stamps are kept.
#[derive(Clone, Debug)]
pub struct TimeStampSource {
    pub path: String,
}

impl TimeStampSource {
    pub fn new(path: &str) -> (r: TimeStampSource)
        ensures
            r.path@ == path@,
    {
        TimeStampSource { path: String::from_str(path) }
    }
}

} // verus!
