//! A time stamp: a titled moment that runs, can be paused and resumed, and
//! is finished once.
use crate::format_utils::{
    grid_view, padded_decimal, push_signed_decimal, signed_decimal, table_fits,
    text_table, try_format_to_text_table, with_at_least_2_digits,
};
use crate::moment::{civil_date_of, Moment};
use crate::time_entities::time_stamp_errors::{ResumeError, StampOperationError, StopError};
use crate::time_entities::TimeEntity;
use vstd::prelude::*;

verus! {

pub const ERROR_MSG_ALREADY_PAUSED: &'static str = "Is already stopped";

pub const ERROR_MSG_ALREADY_FINISHED: &'static str = "Is already finished";

pub const ERROR_MSG_NOT_PAUSED: &'static str = "Is not paused";

/// Shown for a moment that is not known yet, such as the end of a running time stamp.
pub const NOT_AVAILABLE: &'static str = "N/A";

/// Gutter between the columns of a table of time stamps.
pub const TABLE_RIM_SPACES: usize = 2;

/// A character of Unicode's `White_Space` property.
pub open spec fn is_white_space(c: char) -> bool {
    c == '\u{9}' || c == '\u{A}' || c == '\u{B}' || c == '\u{C}' || c == '\u{D}' || c == '\u{20}'
        || c == '\u{85}' || c == '\u{A0}' || c == '\u{1680}' || c == '\u{2000}' || c == '\u{2001}'
        || c == '\u{2002}' || c == '\u{2003}' || c == '\u{2004}' || c == '\u{2005}' || c == '\u{2006}'
        || c == '\u{2007}' || c == '\u{2008}' || c == '\u{2009}' || c == '\u{200A}' || c == '\u{2028}'
        || c == '\u{2029}' || c == '\u{202F}' || c == '\u{205F}' || c == '\u{3000}'
}

/// Number of white space characters at the start of a text.
pub open spec fn leading_white_space(s: Seq<char>) -> nat
    decreases s.len(),
{
    if s.len() > 0 && is_white_space(s[0]) {
        1 + leading_white_space(s.drop_first())
    } else {
        0
    }
}

/// Number of white space characters at the end of a text.
pub open spec fn trailing_white_space(s: Seq<char>) -> nat
    decreases s.len(),
{
    if s.len() > 0 && is_white_space(s.last()) {
        1 + trailing_white_space(s.drop_last())
    } else {
        0
    }
}

/// A text without its leading and trailing white space.
pub open spec fn trimmed_of(s: Seq<char>) -> Seq<char> {
    let rest = s.subrange(leading_white_space(s) as int, s.len() as int);
    rest.subrange(0, rest.len() - trailing_white_space(rest))
}

/// Relies on `str::trim`: the text without leading and trailing characters of
/// Unicode's `White_Space` property.
#[verifier::external_body]
fn trim_text(s: &str) -> (r: &str)
    ensures
        r@ == trimmed_of(s@),
{
    s.trim()
}

/// A titled moment in time with its pause and finish history.
#[derive(Clone, Debug)]
pub struct TimeStamp {
    pub title: String,
    pub started: Moment,
    /// Set once, by `finish`.
    pub ended: Option<Moment>,
    pub is_paused: bool,
    /// The most recent pause; kept when the time stamp is resumed.
    pub last_paused: Option<Moment>,
}

/// `On MM.DD.YYYY at HH:MM:SS`: month, day, hour, minute and second with two
/// digits, the year as it is.
pub open spec fn moment_text(m: Moment) -> Seq<char> {
    let date = civil_date_of(m.epoch_day());
    "On "@ + padded_decimal(date.1 as nat, 2) + "."@ + padded_decimal(date.2 as nat, 2) + "."@
        + signed_decimal(date.0) + " at "@ + padded_decimal((m.second_of_day() / 3600) as nat, 2)
        + ":"@ + padded_decimal((m.second_of_day() % 3600 / 60) as nat, 2) + ":"@ + padded_decimal(
        (m.second_of_day() % 60) as nat,
        2,
    )
}

/// The text of a moment that may not be known yet.
pub open spec fn optional_moment_text(m: Option<Moment>) -> Seq<char> {
    match m {
        Some(moment) => moment_text(moment),
        None => NOT_AVAILABLE@,
    }
}

/// The columns of a table of time stamps.
pub open spec fn text_headers() -> Seq<Seq<char>> {
    seq!["Title"@, "Started at"@, "Ended at"@, "Is paused"@, "Last time paused"@]
}

/// A time stamp's row: title, start, end, whether it is paused, last pause.
pub open spec fn text_row(t: TimeStamp) -> Seq<Seq<char>> {
    seq![
        t.title@,
        moment_text(t.started),
        optional_moment_text(t.ended),
        if t.is_paused {
            "yes"@
        } else {
            "no"@
        },
        optional_moment_text(t.last_paused),
    ]
}

/// The views of a sequence of strings.
pub open spec fn strings_view(v: Seq<String>) -> Seq<Seq<char>> {
    Seq::new(v.len(), |i: int| v[i]@)
}

/// The header row followed by one row per time stamp.
pub open spec fn stamps_grid(stamps: Seq<TimeStamp>) -> Seq<Seq<Seq<char>>> {
    seq![text_headers()] + Seq::new(stamps.len(), |i: int| text_row(stamps[i]))
}

/// The time stamp and the answer after pausing `t` at `now`: a running one is
/// paused at `now`; a paused one is refused with the moment of its pause, a
/// finished one with the moment it was finished, and neither changes.
pub open spec fn pause_outcome(t: TimeStamp, now: Moment) -> (TimeStamp, Result<Moment, StampOperationError<StopError>>) {
    if t.is_paused {
        (
            t,
            Err(
                StampOperationError {
                    error_message: ERROR_MSG_ALREADY_PAUSED,
                    error_kind: StopError::IsStoppedAlready(t.last_paused->0),
                },
            ),
        )
    } else if t.ended is Some {
        (
            t,
            Err(
                StampOperationError {
                    error_message: ERROR_MSG_ALREADY_FINISHED,
                    error_kind: StopError::IsFinishedAlready(t.ended->0),
                },
            ),
        )
    } else {
        (TimeStamp { is_paused: true, last_paused: Some(now), ..t }, Ok(now))
    }
}

/// The time stamp and the answer after resuming `t`: a paused one runs again
/// and keeps the moment of its last pause; a finished one is refused with the
/// moment it was finished, a running one as running, and neither changes.
pub open spec fn resume_outcome(t: TimeStamp) -> (TimeStamp, Result<(), StampOperationError<ResumeError>>) {
    if t.ended is Some {
        (
            t,
            Err(
                StampOperationError {
                    error_message: ERROR_MSG_ALREADY_FINISHED,
                    error_kind: ResumeError::IsFinishedAlready(t.ended->0),
                },
            ),
        )
    } else if !t.is_paused {
        (
            t,
            Err(
                StampOperationError {
                    error_message: ERROR_MSG_NOT_PAUSED,
                    error_kind: ResumeError::IsRunningAlready,
                },
            ),
        )
    } else {
        (TimeStamp { is_paused: false, ..t }, Ok(()))
    }
}

/// The time stamp and the answer after finishing `t` at `now`: an unfinished
/// one ends at `now` and is no longer paused; a finished one keeps the moment
/// it was first finished, which is the error.
pub open spec fn finish_outcome(t: TimeStamp, now: Moment) -> (TimeStamp, Result<Moment, Moment>) {
    match t.ended {
        Some(e) => (t, Err(e)),
        None => (TimeStamp { ended: Some(now), is_paused: false, ..t }, Ok(now)),
    }
}

impl TimeStamp {
    /// Its moments lie within the calendar; a paused one knows when it was
    /// paused, and a finished one is not paused.
    pub open spec fn is_valid(self) -> bool {
        &&& self.started.is_valid()
        &&& (self.ended matches Some(e) ==> e.is_valid())
        &&& (self.last_paused matches Some(p) ==> p.is_valid())
        &&& (self.is_paused ==> self.last_paused is Some)
        &&& (self.ended is Some ==> !self.is_paused)
    }

    /// A running time stamp titled `title` without its surrounding white space,
    /// started at `now`, the clock's reading when it is created.
    pub fn new(title: &str, now: Moment) -> (r: TimeStamp)
        requires
            now.is_valid(),
        ensures
            r.is_valid(),
            r.title@ == trimmed_of(title@),
            r.started == now,
            r.ended is None,
            !r.is_paused,
            r.last_paused is None,
    {
        TimeStamp::with_started(title, now)
    }

    /// A running time stamp titled `title` without its surrounding white space,
    /// started at `started`.
    pub fn with_started(title: &str, started: Moment) -> (r: TimeStamp)
        ensures
            r.title@ == trimmed_of(title@),
            r.started == started,
            r.ended is None,
            !r.is_paused,
            r.last_paused is None,
            started.is_valid() ==> r.is_valid(),
    {
        TimeStamp {
            title: String::from_str(trim_text(title)),
            started,
            ended: None,
            is_paused: false,
            last_paused: None,
        }
    }

    /// A time stamp from its stored fields; `None` where they contradict each
    /// other or a moment lies outside the calendar.
    pub fn from_parts(
        title: String,
        started: Moment,
        ended: Option<Moment>,
        is_paused: bool,
        last_paused: Option<Moment>,
    ) -> (r: Option<TimeStamp>)
        ensures
            r is Some <==> (TimeStamp { title, started, ended, is_paused, last_paused }).is_valid(),
            r matches Some(t) ==> t == (TimeStamp { title, started, ended, is_paused, last_paused }),
    {
        let ended_valid = match ended {
            Some(e) => Moment::from_timestamp(e.secs).is_some(),
            None => true,
        };
        let last_paused_valid = match last_paused {
            Some(p) => Moment::from_timestamp(p.secs).is_some(),
            None => true,
        };
        let valid = Moment::from_timestamp(started.secs).is_some() && ended_valid && last_paused_valid
            && (!is_paused || last_paused.is_some()) && (ended.is_none() || !is_paused);
        if valid {
            Some(TimeStamp { title, started, ended, is_paused, last_paused })
        } else {
            None
        }
    }

    /// Pauses a running time stamp at `now` and returns that moment. A paused
    /// one is refused with the moment of its pause, a finished one with the
    /// moment it was finished; neither is changed.
    pub fn pause(&mut self, now: Moment) -> (r: Result<Moment, StampOperationError<StopError>>)
        requires
            old(self).is_valid(),
            now.is_valid(),
        ensures
            final(self).is_valid(),
            (*final(self), r) == pause_outcome(*old(self), now),
    {
        if self.is_paused {
            let paused_at = self.last_paused.unwrap();
            return Err(
                StampOperationError::new(ERROR_MSG_ALREADY_PAUSED, StopError::IsStoppedAlready(paused_at)),
            );
        }
        match self.ended {
            Some(time_ended) => Err(
                StampOperationError::new(ERROR_MSG_ALREADY_FINISHED, StopError::IsFinishedAlready(time_ended)),
            ),
            None => {
                self.is_paused = true;
                self.last_paused = Some(now);
                Ok(now)
            },
        }
    }

    /// Ends the pause of a paused time stamp; the moment of that pause stays
    /// recorded. A finished one is refused with the moment it was finished, a
    /// running one as running; neither is changed.
    pub fn resume(&mut self) -> (r: Result<(), StampOperationError<ResumeError>>)
        requires
            old(self).is_valid(),
        ensures
            final(self).is_valid(),
            (*final(self), r) == resume_outcome(*old(self)),
    {
        if let Some(time_ended) = self.ended {
            return Err(
                StampOperationError::new(ERROR_MSG_ALREADY_FINISHED, ResumeError::IsFinishedAlready(time_ended)),
            );
        }
        if !self.is_paused {
            return Err(StampOperationError::new(ERROR_MSG_NOT_PAUSED, ResumeError::IsRunningAlready));
        }
        self.is_paused = false;
        Ok(())
    }

    /// Finishes the time stamp at `now` and returns that moment; it is no
    /// longer paused. A finished one keeps the moment it was first finished,
    /// which comes back as the error.
    pub fn finish(&mut self, now: Moment) -> (r: Result<Moment, Moment>)
        requires
            old(self).is_valid(),
            now.is_valid(),
        ensures
            final(self).is_valid(),
            (*final(self), r) == finish_outcome(*old(self), now),
    {
        match self.ended {
            Some(ended_time) => Err(ended_time),
            None => {
                self.is_paused = false;
                self.ended = Some(now);
                Ok(now)
            },
        }
    }
}

impl TimeStamp {
    /// The moment as `On MM.DD.YYYY at HH:MM:SS`.
    pub fn time_to_str(date: Moment) -> (r: String)
        requires
            date.is_valid(),
        ensures
            r@ == moment_text(date),
    {
        let (year, month, day) = date.date();
        let (hour, minute, second) = date.time_of_day();
        let mut text = String::from_str("On ");
        text.append(with_at_least_2_digits(month as u64).as_str());
        text.append(".");
        text.append(with_at_least_2_digits(day as u64).as_str());
        text.append(".");
        push_signed_decimal(&mut text, year);
        text.append(" at ");
        text.append(with_at_least_2_digits(hour).as_str());
        text.append(":");
        text.append(with_at_least_2_digits(minute).as_str());
        text.append(":");
        text.append(with_at_least_2_digits(second).as_str());
        assert(text@ =~= moment_text(date));
        text
    }

    /// Appends the text of a moment, or `N/A` where it is not known.
    fn push_text_date_time(to_push_on: &mut Vec<String>, date_time: Option<Moment>)
        requires
            date_time matches Some(m) ==> m.is_valid(),
        ensures
            final(to_push_on)@.len() == old(to_push_on)@.len() + 1,
            final(to_push_on)@.drop_last() == old(to_push_on)@,
            final(to_push_on)@.last()@ == optional_moment_text(date_time),
    {
        match date_time {
            Some(moment) => to_push_on.push(TimeStamp::time_to_str(moment)),
            None => to_push_on.push(String::from_str(NOT_AVAILABLE)),
        }
    }

    /// The titles of the columns of a table of time stamps.
    pub fn get_text_headers() -> (r: Vec<String>)
        ensures
            strings_view(r@) == text_headers(),
    {
        let mut headers: Vec<String> = Vec::new();
        headers.push(String::from_str("Title"));
        headers.push(String::from_str("Started at"));
        headers.push(String::from_str("Ended at"));
        headers.push(String::from_str("Is paused"));
        headers.push(String::from_str("Last time paused"));
        assert(strings_view(headers@) =~= text_headers());
        headers
    }

    /// The time stamp's row of text: title, start, end or `N/A`, `yes` or `no`
    /// for paused, last pause or `N/A`.
    pub fn to_str_vec(&self) -> (r: Vec<String>)
        requires
            self.is_valid(),
        ensures
            strings_view(r@) == text_row(*self),
    {
        let mut output: Vec<String> = Vec::new();
        output.push(self.title.clone());
        output.push(TimeStamp::time_to_str(self.started));
        let ghost two = output@;
        TimeStamp::push_text_date_time(&mut output, self.ended);
        assert(output@[0] == two[0] && output@[1] == two[1]);
        output.push(
            if self.is_paused {
                String::from_str("yes")
            } else {
                String::from_str("no")
            },
        );
        let ghost four = output@;
        TimeStamp::push_text_date_time(&mut output, self.last_paused);
        assert(output@[0] == four[0] && output@[1] == four[1] && output@[2] == four[2] && output@[3]
            == four[3]);
        assert(strings_view(output@) =~= text_row(*self));
        output
    }

    /// The rows of text of several time stamps, in their order.
    fn many_to_text(to_convert: &[TimeStamp]) -> (r: Vec<Vec<String>>)
        requires
            forall|i: int| 0 <= i < to_convert@.len() ==> #[trigger] to_convert@[i].is_valid(),
        ensures
            r@.len() == to_convert@.len(),
            forall|i: int| 0 <= i < r@.len() ==> strings_view(#[trigger] r@[i]@) == text_row(to_convert@[i]),
    {
        let mut to_return: Vec<Vec<String>> = Vec::new();
        let mut index: usize = 0;
        while index < to_convert.len()
            invariant
                index <= to_convert@.len(),
                forall|i: int| 0 <= i < to_convert@.len() ==> #[trigger] to_convert@[i].is_valid(),
                to_return@.len() == index,
                forall|i: int| 0 <= i < index ==> strings_view(#[trigger] to_return@[i]@) == text_row(to_convert@[i]),
            decreases to_convert@.len() - index,
        {
            let columns = to_convert[index].to_str_vec();
            to_return.push(columns);
            index += 1;
        }
        to_return
    }

    /// The table of the time stamps under a header row, with two spaces between
    /// columns; `None` only where the table would not fit the machine's sizes.
    pub fn create_text_table_from_time_stamps(data: &Vec<TimeStamp>) -> (r: Option<String>)
        requires
            forall|i: int| 0 <= i < data@.len() ==> #[trigger] data@[i].is_valid(),
        ensures
            r is Some <==> table_fits(stamps_grid(data@), TABLE_RIM_SPACES as nat),
            r matches Some(text) ==> text@ == text_table(stamps_grid(data@), TABLE_RIM_SPACES as nat),
    {
        let mut text_data = TimeStamp::many_to_text(data.as_slice());
        let headers = TimeStamp::get_text_headers();
        text_data.insert(0, headers);
        assert forall|i: int| 0 <= i < text_data@.len() implies #[trigger] grid_view(text_data@)[i]
            == stamps_grid(data@)[i] by {
            assert(grid_view(text_data@)[i] =~= strings_view(text_data@[i]@));
        }
        assert(grid_view(text_data@) =~= stamps_grid(data@));
        try_format_to_text_table(text_data.as_slice(), TABLE_RIM_SPACES)
    }
}

/// Finishing twice gives the same end both times: the second call, at any
/// moment, fails with the end that the first call set or kept, and changes
/// nothing. For an unfinished time stamp that end is the first call's moment.
pub proof fn lemma_finish_twice_keeps_end(t: TimeStamp, first: Moment, second: Moment)
    ensures
        ({
            let (once, first_answer) = finish_outcome(t, first);
            let (twice, second_answer) = finish_outcome(once, second);
            &&& once.ended is Some
            &&& twice == once
            &&& second_answer == Err::<Moment, Moment>(once.ended->0)
            &&& t.ended is None ==> first_answer == Ok::<Moment, Moment>(first) && once.ended == Some(first)
            &&& t.ended is Some ==> first_answer == Err::<Moment, Moment>(once.ended->0)
        }),
{
}

/// A time stamp just finished refuses a pause at any later moment, naming the
/// moment it was finished; its start and pause history stay as they were.
pub proof fn lemma_pause_after_finish_refused(t: TimeStamp, finished_at: Moment, later: Moment)
    requires
        t.ended is None,
    ensures
        ({
            let finished = finish_outcome(t, finished_at).0;
            &&& finished.started == t.started
            &&& finished.last_paused == t.last_paused
            &&& pause_outcome(finished, later) == (
                finished,
                Err::<Moment, StampOperationError<StopError>>(
                    StampOperationError {
                        error_message: ERROR_MSG_ALREADY_FINISHED,
                        error_kind: StopError::IsFinishedAlready(finished_at),
                    },
                ),
            )
        }),
{
}

impl TimeEntity for TimeStamp {
    open spec fn title_view(&self) -> Seq<char> {
        self.title@
    }

    fn get_title(&self) -> (r: &str) {
        self.title.as_str()
    }
}

} // verus!
