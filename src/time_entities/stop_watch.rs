//! A stop watch: a time stamp with a count down.
use crate::time_entities::time_stamp::TimeStamp;
use crate::time_entities::TimeEntity;
use vstd::prelude::*;

verus! {

/// A time stamp that counts down from a number of seconds.
#[derive(Clone, Debug)]
pub struct StopWatch {
    pub time_stamp: TimeStamp,
    pub count_down: Option<usize>,
}

impl TimeEntity for StopWatch {
    open spec fn title_view(&self) -> Seq<char> {
        self.time_stamp.title@
    }

    fn get_title(&self) -> (r: &str) {
        self.time_stamp.title.as_str()
    }
}

} // verus!
