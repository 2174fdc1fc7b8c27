//! Session records: what is kept of each completed run.

use chrono::Datelike;
use vstd::prelude::*;

verus! {

/// A day of the calendar.
#[derive(Debug, PartialEq, Eq, Structural, Clone, Copy, Hash)]
pub struct CalendarDate {
    pub year: i32,
    /// 1 for January to 12 for December.
    pub month: u32,
    /// The day of the month, from 1.
    pub day: u32,
}

impl CalendarDate {
    /// Month and day are in the range of a calendar.
    pub open spec fn in_calendar(self) -> bool {
        1 <= self.month <= 12 && 1 <= self.day <= 31
    }
}

/// A session record as it is stored: one completed run of one user.
#[derive(Debug, PartialEq, Eq)]
pub struct TimerRuns {
    pub id: i32,
    pub user: String,
    pub working_time_secs: i32,
    pub breaking_time_secs: i32,
    pub date: CalendarDate,
}

/// A session record that is still to be stored.
#[derive(Debug, PartialEq, Eq)]
pub struct NewTimerRun {
    pub user: String,
    pub working_time_secs: i32,
    pub breaking_time_secs: i32,
    pub date: CalendarDate,
}

/// `chrono::Local::now().date_naive()`: the current day in the local time
/// zone, as year, month and day.
///
/// Taken on trust: chrono numbers months from 1 to 12 and days from 1 to 31.
/// Which day comes back depends on the clock and the time zone of the
/// machine. chrono gives up on a clock set before 1970.
#[verifier::external_body]
pub(crate) fn local_today() -> (today: CalendarDate)
    ensures
        today.in_calendar(),
{
    let today = chrono::Local::now().date_naive();
    CalendarDate { year: today.year(), month: today.month(), day: today.day() }
}

/// The record of a run that `user` completed on `date`.
pub fn record_on(user: &str, working_time_secs: i32, breaking_time_secs: i32, date: CalendarDate) -> (record:
    NewTimerRun)
    ensures
        record.user@ == user@,
        record.working_time_secs == working_time_secs,
        record.breaking_time_secs == breaking_time_secs,
        record.date == date,
{
    NewTimerRun { user: user.to_owned(), working_time_secs, breaking_time_secs, date }
}

/// The record of a run that `user` completed just now: it carries the
/// current local day.
pub fn create_timer_run(user: &str, working_time_secs: i32, breaking_time_secs: i32) -> (record:
    NewTimerRun)
    ensures
        record.user@ == user@,
        record.working_time_secs == working_time_secs,
        record.breaking_time_secs == breaking_time_secs,
        record.date.in_calendar(),
{
    record_on(user, working_time_secs, breaking_time_secs, local_today())
}

} // verus!
