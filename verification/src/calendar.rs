//! Calendar facts about a day: its weekday, the number of its week and its
//! date as text.
//!
//! The calendar arithmetic is chrono's. A day is named by a Unix timestamp,
//! in seconds, that falls on it (UTC).

use vstd::prelude::*;

verus! {

/// The seconds of one day.
pub const DAY_SECONDS: i64 = 86_400;

/// A day of the week.
#[derive(Clone, Copy, Debug, PartialEq, Eq, Structural)]
pub enum Weekday {
    Mon,
    Tue,
    Wed,
    Thu,
    Fri,
    Sat,
    Sun,
}

/// The weekday that is `index` days after a Monday.
pub open spec fn weekday_from_index(index: int) -> Weekday {
    if index == 0 {
        Weekday::Mon
    } else if index == 1 {
        Weekday::Tue
    } else if index == 2 {
        Weekday::Wed
    } else if index == 3 {
        Weekday::Thu
    } else if index == 4 {
        Weekday::Fri
    } else if index == 5 {
        Weekday::Sat
    } else {
        Weekday::Sun
    }
}

/// The number of days from Monday to the weekday of the day on which
/// `timestamp` falls. The day of the epoch was a Thursday, three days
/// after a Monday, and the weekdays follow one another day by day.
pub open spec fn weekday_number(timestamp: int) -> int {
    (timestamp / (DAY_SECONDS as int) + 3) % 7
}

/// The number of days from Monday to the weekday of the day on which
/// `timestamp` falls, as chrono counts them; `None` where chrono has no
/// date for the timestamp.
pub uninterp spec fn weekday_index_at(timestamp: int) -> Option<int>;

/// The number of the ISO week of the day on which `timestamp` falls, as
/// chrono computes it; `None` where chrono has no date for the timestamp.
pub uninterp spec fn iso_week_at(timestamp: int) -> Option<int>;

/// The date of the day on which `timestamp` falls, written as day, month
/// and year with dots between them, as chrono formats it; `None` where
/// chrono has no date for the timestamp.
pub uninterp spec fn date_text_at(timestamp: int) -> Option<Seq<char>>;

/// The timestamp of the midnight that begins the day `day`.`month`.`year`,
/// as chrono computes it; `None` where the calendar has no such day.
pub uninterp spec fn midnight_of(year: int, month: int, day: int) -> Option<int>;

/// The moment `millis` milliseconds after the Unix epoch, written as day,
/// month and year with slashes between them, followed by hours, minutes
/// and seconds with colons between them, as chrono formats it; `None`
/// where chrono has no date for the moment.
pub uninterp spec fn moment_text_at(millis: int) -> Option<Seq<char>>;

/// Calls chrono's `DateTime::from_timestamp`, `Datelike::weekday` and
/// `Weekday::num_days_from_monday`. The result is the named weekday index
/// of the timestamp, and `None` exactly where `from_timestamp` returns
/// `None`. Its value is stated: `from_timestamp` takes the days since the
/// epoch, rounded down, and adds 719 163 to count them from the first day
/// of the year 1, which chrono documents as day 1 and which is a Monday;
/// so the days from Monday are the days since the epoch plus 719 162,
/// modulo 7, and 719 162 leaves 3.
#[verifier::external_body]
fn weekday_index(timestamp: i64) -> (index: Option<u32>)
    ensures
        match index {
            Some(i) => weekday_index_at(timestamp as int) == Some(i as int) && i
                == weekday_number(timestamp as int),
            None => weekday_index_at(timestamp as int) is None,
        },
{
    match chrono::DateTime::from_timestamp(timestamp, 0) {
        Some(moment) => Some(chrono::Datelike::weekday(&moment).num_days_from_monday()),
        None => None,
    }
}

/// Calls chrono's `DateTime::from_timestamp`, `Datelike::iso_week` and
/// `IsoWeek::week`. The result is the named week number of the timestamp.
/// It is `None` exactly where `from_timestamp` returns `None`.
#[verifier::external_body]
fn iso_week(timestamp: i64) -> (week: Option<u32>)
    ensures
        match week {
            Some(w) => iso_week_at(timestamp as int) == Some(w as int),
            None => iso_week_at(timestamp as int) is None,
        },
{
    match chrono::DateTime::from_timestamp(timestamp, 0) {
        Some(moment) => Some(chrono::Datelike::iso_week(&moment).week()),
        None => None,
    }
}

/// Calls chrono's `DateTime::from_timestamp` and `DateTime::format` with
/// the pattern `%d.%m.%Y`. The result is the named date text of the
/// timestamp. It is `None` exactly where `from_timestamp` returns `None`.
#[verifier::external_body]
fn date_text(timestamp: i64) -> (text: Option<String>)
    ensures
        match text {
            Some(t) => date_text_at(timestamp as int) == Some(t@),
            None => date_text_at(timestamp as int) is None,
        },
{
    match chrono::DateTime::from_timestamp(timestamp, 0) {
        Some(moment) => Some(moment.format("%d.%m.%Y").to_string()),
        None => None,
    }
}

/// Calls chrono's `NaiveDate::from_ymd_opt`, and for a date that exists
/// `NaiveDate::and_time` with midnight, `NaiveDateTime::and_utc` and
/// `DateTime::timestamp`. The result is the named midnight of the date. It
/// is `None` exactly where `from_ymd_opt` returns `None`.
#[verifier::external_body]
fn midnight(year: i32, month: u32, day: u32) -> (timestamp: Option<i64>)
    ensures
        match timestamp {
            Some(t) => midnight_of(year as int, month as int, day as int) == Some(t as int),
            None => midnight_of(year as int, month as int, day as int) is None,
        },
{
    match chrono::NaiveDate::from_ymd_opt(year, month, day) {
        Some(date) => Some(date.and_time(chrono::NaiveTime::MIN).and_utc().timestamp()),
        None => None,
    }
}

/// Calls chrono's `DateTime::from_timestamp_millis` and `DateTime::format`
/// with the pattern `%d/%m/%Y %H:%M:%S`. The result is the named text of
/// the moment. It is `None` exactly where `from_timestamp_millis` returns
/// `None`.
#[verifier::external_body]
fn moment_text_of(millis: i64) -> (text: Option<String>)
    ensures
        match text {
            Some(t) => moment_text_at(millis as int) == Some(t@),
            None => moment_text_at(millis as int) is None,
        },
{
    match chrono::DateTime::from_timestamp_millis(millis) {
        Some(moment) => Some(moment.format("%d/%m/%Y %H:%M:%S").to_string()),
        None => None,
    }
}

/// The moment `millis` milliseconds after the Unix epoch as text; `None`
/// where the calendar does not reach that far.
pub fn moment_text(millis: i64) -> (text: Option<String>)
    ensures
        match text {
            Some(t) => moment_text_at(millis as int) == Some(t@),
            None => moment_text_at(millis as int) is None,
        },
{
    moment_text_of(millis)
}

/// What the bot reads of a day.
#[derive(Debug)]
pub struct CalendarDay {
    /// A Unix timestamp, in seconds, that falls on the day.
    pub timestamp: i64,
    pub weekday: Weekday,
    /// The number of the day's ISO week.
    pub iso_week: u32,
    /// The date as day, month and year with dots between them.
    pub text: String,
}

/// A day as contracts see it.
pub struct CalendarDayView {
    pub timestamp: int,
    pub weekday: Weekday,
    pub iso_week: int,
    pub text: Seq<char>,
}

impl View for CalendarDay {
    type V = CalendarDayView;

    open spec fn view(&self) -> CalendarDayView {
        CalendarDayView {
            timestamp: self.timestamp as int,
            weekday: self.weekday,
            iso_week: self.iso_week as int,
            text: self.text@,
        }
    }
}

/// The day on which `timestamp` falls, where the calendar has one.
pub open spec fn day_at(timestamp: int) -> Option<CalendarDayView> {
    match (weekday_index_at(timestamp), iso_week_at(timestamp), date_text_at(timestamp)) {
        (Some(_), Some(week), Some(text)) => Some(
            CalendarDayView {
                timestamp,
                weekday: weekday_from_index(weekday_number(timestamp)),
                iso_week: week,
                text,
            },
        ),
        _ => None,
    }
}

/// Whether a day falls into a week that counts as even for the weekly
/// timetable: one whose ISO number is odd.
pub open spec fn in_even_week(day: CalendarDayView) -> bool {
    day.iso_week % 2 != 0
}

/// The weekday that is `index` days after a Monday.
pub fn weekday_of_index(index: u32) -> (weekday: Weekday)
    ensures
        weekday == weekday_from_index(index as int),
{
    if index == 0 {
        Weekday::Mon
    } else if index == 1 {
        Weekday::Tue
    } else if index == 2 {
        Weekday::Wed
    } else if index == 3 {
        Weekday::Thu
    } else if index == 4 {
        Weekday::Fri
    } else if index == 5 {
        Weekday::Sat
    } else {
        Weekday::Sun
    }
}

impl CalendarDay {
    /// Whether the fields are those of the day on which the timestamp
    /// falls.
    pub open spec fn wf(&self) -> bool {
        day_at(self.timestamp as int) == Some(self@)
    }

    /// The day on which `timestamp` falls; `None` where the calendar does
    /// not reach that far.
    pub fn at(timestamp: i64) -> (day: Option<CalendarDay>)
        ensures
            match day {
                Some(d) => day_at(timestamp as int) == Some(d@) && d.wf(),
                None => day_at(timestamp as int) is None,
            },
    {
        let index = match weekday_index(timestamp) {
            Some(index) => index,
            None => { return None; },
        };
        let week = match iso_week(timestamp) {
            Some(week) => week,
            None => { return None; },
        };
        let text = match date_text(timestamp) {
            Some(text) => text,
            None => { return None; },
        };
        Some(CalendarDay { timestamp, weekday: weekday_of_index(index), iso_week: week, text })
    }

    /// The day `day`.`month`.`year`; `None` where the calendar has no such
    /// day.
    pub fn from_ymd(year: i32, month: u32, day: u32) -> (found: Option<CalendarDay>)
        ensures
            match found {
                Some(d) => {
                    &&& midnight_of(year as int, month as int, day as int) == Some(d@.timestamp)
                    &&& d.wf()
                },
                None => match midnight_of(year as int, month as int, day as int) {
                    Some(t) => day_at(t) is None,
                    None => true,
                },
            },
    {
        match midnight(year, month, day) {
            Some(timestamp) => CalendarDay::at(timestamp),
            None => None,
        }
    }

    /// Whether the day falls into a week that counts as even.
    pub fn is_even_week(&self) -> (even: bool)
        ensures
            even == in_even_week(self@),
    {
        self.iso_week % 2 != 0
    }

    /// Whether `self` and `other` name the same moment.
    pub fn same_moment(&self, other: i64) -> (same: bool)
        ensures
            same == (self.timestamp == other),
    {
        self.timestamp == other
    }
}

/// The day of the next lessons after the day on which `today` falls: the
/// day after it, or the second day after it where the day after it is a
/// Sunday. There is none where the calendar does not reach that far, nor
/// where the second day after `today` is beyond the timestamps of 64 bits.
pub open spec fn next_school_day_at(today: int) -> Option<CalendarDayView> {
    if today > i64::MAX - 2 * DAY_SECONDS {
        None
    } else {
        match day_at(today + DAY_SECONDS) {
            Some(tomorrow) => if tomorrow.weekday == Weekday::Sun {
                day_at(today + 2 * DAY_SECONDS)
            } else {
                Some(tomorrow)
            },
            None => None,
        }
    }
}

/// The day of the next lessons is never a Sunday, and it is the day after
/// `today` unless that is a Sunday: after a Saturday and after a Sunday it
/// is the Monday.
pub proof fn law_next_school_day_is_no_sunday(today: int)
    ensures
        next_school_day_at(today) matches Some(day) ==> {
            &&& day.weekday != Weekday::Sun
            &&& day.timestamp == if weekday_number(today + DAY_SECONDS) == 6 {
                today + 2 * DAY_SECONDS
            } else {
                today + DAY_SECONDS
            }
            &&& weekday_number(today) == 5 ==> day.weekday == Weekday::Mon
            &&& weekday_number(today) == 6 ==> day.weekday == Weekday::Mon
        },
{
}

/// The day of the next lessons after the day on which `today` falls: the
/// day after it, with a Sunday passed over.
pub fn get_next_day(today: i64) -> (day: Option<CalendarDay>)
    ensures
        match day {
            Some(d) => next_school_day_at(today as int) == Some(d@) && d.weekday != Weekday::Sun,
            None => next_school_day_at(today as int) is None,
        },
{
    proof {
        law_next_school_day_is_no_sunday(today as int);
    }
    if today > i64::MAX - 2 * DAY_SECONDS {
        return None;
    }
    match CalendarDay::at(today + DAY_SECONDS) {
        Some(tomorrow) => {
            if tomorrow.weekday == Weekday::Sun {
                CalendarDay::at(today + 2 * DAY_SECONDS)
            } else {
                Some(tomorrow)
            }
        },
        None => None,
    }
}

/// Calls fastrand's `usize` with the range from 0 up to `bound`. The value
/// is drawn at random, so the contract says only where it lies: below the
/// bound. fastrand panics on an empty range, which `requires` leaves out.
#[verifier::external_body]
pub(crate) fn random_below(bound: usize) -> (index: usize)
    requires
        bound > 0,
    ensures
        index < bound,
{
    fastrand::usize(0..bound)
}

} // verus!
