//! The collection of time entities: unique titles and the aggregate table.
use crate::format_utils::{same_text, table_fits, text_table};
use crate::moment::Moment;
use crate::time_entities::stop_watch::StopWatch;
use crate::time_entities::time_stamp::{stamps_grid, trimmed_of, TimeStamp, TABLE_RIM_SPACES};
use crate::time_entities::TimeEntity;
use vstd::prelude::*;

verus! {

pub const DUPLICATE_ADDED_TIME_ERROR_MSG: &'static str = "Title already exists on another time stamp";

/// Text put before the table of time stamps.
pub const TIME_STAMPS_CAPTION: &'static str = "Time stamps: \n";

/// A title was already taken; nothing was added.
#[derive(Clone, Debug)]
pub struct DuplicateTitleError {
    pub title: String,
}

impl DuplicateTitleError {
    pub fn get_error_msg(&self) -> (r: &'static str)
        ensures
            r == DUPLICATE_ADDED_TIME_ERROR_MSG,
    {
        DUPLICATE_ADDED_TIME_ERROR_MSG
    }
}

/// Some entity carries exactly this title.
pub open spec fn has_title<T: TimeEntity>(entities: Seq<T>, title: Seq<char>) -> bool {
    exists|i: int| 0 <= i < entities.len() && #[trigger] entities[i].title_view() == title
}

/// No two entities carry the same title.
pub open spec fn unique_titles<T: TimeEntity>(entities: Seq<T>) -> bool {
    forall|i: int, j: int|
        0 <= i < j < entities.len() ==> #[trigger] entities[i].title_view() != #[trigger] entities[j].title_view()
}

/// The time stamps and stop watches tracked together.
#[derive(Clone, Debug)]
pub struct TimeEntitiesController {
    pub time_stamps: Vec<TimeStamp>,
    pub stop_watches: Vec<StopWatch>,
}

impl TimeEntitiesController {
    /// Every entity is a valid time stamp.
    pub open spec fn is_valid(self) -> bool {
        &&& forall|i: int| 0 <= i < self.time_stamps@.len() ==> #[trigger] self.time_stamps@[i].is_valid()
        &&& forall|i: int|
            0 <= i < self.stop_watches@.len() ==> #[trigger] self.stop_watches@[i].time_stamp.is_valid()
    }

    pub fn empty() -> (r: TimeEntitiesController)
        ensures
            r.time_stamps@.len() == 0,
            r.stop_watches@.len() == 0,
    {
        TimeEntitiesController { time_stamps: Vec::new(), stop_watches: Vec::new() }
    }

    pub fn new(time_stamps: Vec<TimeStamp>, stop_watches: Vec<StopWatch>) -> (r: TimeEntitiesController)
        ensures
            r.time_stamps == time_stamps,
            r.stop_watches == stop_watches,
    {
        TimeEntitiesController { time_stamps, stop_watches }
    }

    /// Tells whether an entity is titled exactly `title` (case-sensitive).
    pub fn has_duplicate_on<T: TimeEntity>(entities: &[T], title: &str) -> (r: bool)
        ensures
            r == has_title(entities@, title@),
    {
        let mut index: usize = 0;
        while index < entities.len()
            invariant
                index <= entities@.len(),
                forall|i: int| 0 <= i < index ==> #[trigger] entities@[i].title_view() != title@,
            decreases entities@.len() - index,
        {
            if same_text(entities[index].get_title(), title) {
                return true;
            }
            index += 1;
        }
        false
    }

    /// Appends `new_time_stamp` unless a time stamp already carries its title;
    /// then it fails and nothing changes.
    pub fn add_time_stamp(&mut self, new_time_stamp: TimeStamp) -> (r: Result<(), DuplicateTitleError>)
        ensures
            has_title(old(self).time_stamps@, new_time_stamp.title@) ==> (r matches Err(e)
                && e.title@ == new_time_stamp.title@) && *final(self) == *old(self),
            !has_title(old(self).time_stamps@, new_time_stamp.title@) ==> r is Ok
                && final(self).time_stamps@ == old(self).time_stamps@.push(new_time_stamp)
                && final(self).stop_watches == old(self).stop_watches,
            unique_titles(old(self).time_stamps@) ==> unique_titles(final(self).time_stamps@),
            old(self).is_valid() && new_time_stamp.is_valid() ==> final(self).is_valid(),
    {
        if Self::has_duplicate_on(self.time_stamps.as_slice(), new_time_stamp.title.as_str()) {
            return Err(DuplicateTitleError { title: new_time_stamp.title });
        }
        self.time_stamps.push(new_time_stamp);
        Ok(())
    }

    /// Adds a running time stamp started at `now`, the clock's reading, titled
    /// `new_title` without its surrounding white space. It fails with
    /// `DuplicateTitleError`, and nothing changes, where a time stamp already
    /// carries `new_title` exactly as given or without that white space.
    pub fn add_new_time_stamp(&mut self, new_title: &str, now: Moment) -> (r: Result<(), DuplicateTitleError>)
        requires
            now.is_valid(),
        ensures
            has_title(old(self).time_stamps@, new_title@) ==> (r matches Err(e) && e.title@ == new_title@)
                && *final(self) == *old(self),
            !has_title(old(self).time_stamps@, new_title@)
                && has_title(old(self).time_stamps@, trimmed_of(new_title@))
                ==> (r matches Err(e) && e.title@ == trimmed_of(new_title@)) && *final(self) == *old(self),
            !has_title(old(self).time_stamps@, new_title@)
                && !has_title(old(self).time_stamps@, trimmed_of(new_title@))
                ==> r is Ok && final(self).time_stamps@.len() == old(self).time_stamps@.len() + 1
                && final(self).time_stamps@.drop_last() == old(self).time_stamps@
                && final(self).time_stamps@.last().title@ == trimmed_of(new_title@)
                && final(self).time_stamps@.last().started == now
                && final(self).time_stamps@.last().ended is None
                && !final(self).time_stamps@.last().is_paused
                && final(self).time_stamps@.last().last_paused is None
                && final(self).stop_watches == old(self).stop_watches,
            unique_titles(old(self).time_stamps@) ==> unique_titles(final(self).time_stamps@),
            old(self).is_valid() ==> final(self).is_valid(),
    {
        if Self::has_duplicate_on(self.time_stamps.as_slice(), new_title) {
            return Err(DuplicateTitleError { title: String::from_str(new_title) });
        }
        let new_time_stamp = TimeStamp::new(new_title, now);
        self.add_time_stamp(new_time_stamp)
    }

    /// The table of the time stamps under the caption `Time stamps: `, ended by
    /// a newline; `None` only where the table would not fit the machine's sizes.
    pub fn render(&self) -> (r: Option<String>)
        requires
            self.is_valid(),
        ensures
            r is Some <==> table_fits(stamps_grid(self.time_stamps@), TABLE_RIM_SPACES as nat),
            r matches Some(text) ==> text@ == TIME_STAMPS_CAPTION@ + text_table(
                stamps_grid(self.time_stamps@),
                TABLE_RIM_SPACES as nat,
            ) + "\n"@,
    {
        match TimeStamp::create_text_table_from_time_stamps(&self.time_stamps) {
            Some(table) => {
                let mut text = String::from_str(TIME_STAMPS_CAPTION);
                text.append(table.as_str());
                text.append("\n");
                Some(text)
            },
            None => None,
        }
    }
}

} // verus!
