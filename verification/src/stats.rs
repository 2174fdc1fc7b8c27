//! Session totals: the working and breaking time of a user's completed runs.

use crate::models::CalendarDate;
use crate::models::TimerRuns;
use crate::pomodoro_timer::Period;
use vstd::prelude::*;

verus! {

/// The day to which `period` narrows the records: `today` for
/// [`Period::Today`], none for [`Period::AllTime`].
pub open spec fn day_of(period: Period, today: CalendarDate) -> Option<CalendarDate> {
    match period {
        Period::Today => Some(today),
        Period::AllTime => None,
    }
}

/// Whether `run` counts: it is a run of `user`, and of `day` if one is
/// given.
pub open spec fn counts(run: TimerRuns, user: Seq<char>, day: Option<CalendarDate>) -> bool {
    run.user@ == user && (day.is_some() ==> run.date == day.unwrap())
}

/// The working seconds of the runs that count.
pub open spec fn working_total(runs: Seq<TimerRuns>, user: Seq<char>, day: Option<CalendarDate>) -> int
    decreases runs.len(),
{
    if runs.len() == 0 {
        0
    } else {
        working_total(runs.drop_last(), user, day) + if counts(runs.last(), user, day) {
            runs.last().working_time_secs as int
        } else {
            0
        }
    }
}

/// The breaking seconds of the runs that count.
pub open spec fn breaking_total(runs: Seq<TimerRuns>, user: Seq<char>, day: Option<CalendarDate>) -> int
    decreases runs.len(),
{
    if runs.len() == 0 {
        0
    } else {
        breaking_total(runs.drop_last(), user, day) + if counts(runs.last(), user, day) {
            runs.last().breaking_time_secs as int
        } else {
            0
        }
    }
}

/// Whether a total can be reported in 32 bits.
pub open spec fn reportable(total: int) -> bool {
    i32::MIN <= total <= i32::MAX
}

/// The two totals as they are reported: both, or nothing if one of them does
/// not fit in 32 bits.
pub open spec fn totals_of(runs: Seq<TimerRuns>, user: Seq<char>, day: Option<CalendarDate>) -> Option<
    (i32, i32),
> {
    let working = working_total(runs, user, day);
    let breaking = breaking_total(runs, user, day);
    if reportable(working) && reportable(breaking) {
        Some((working as i32, breaking as i32))
    } else {
        None
    }
}

/// The working and the breaking seconds of the runs of `user` among `runs`,
/// of all of them or only of those dated `today`, as `period` says.
///
/// `None` when a total does not fit in 32 bits.
pub fn total_time(runs: &Vec<TimerRuns>, user: &String, period: Period, today: CalendarDate) -> (totals:
    Option<(i32, i32)>)
    ensures
        totals == totals_of(runs@, user@, day_of(period, today)),
{
    let ghost day = day_of(period, today);
    let mut working: i128 = 0;
    let mut breaking: i128 = 0;
    let mut i: usize = 0;
    while i < runs.len()
        invariant
            i <= runs.len(),
            day == day_of(period, today),
            working == working_total(runs@.take(i as int), user@, day),
            breaking == breaking_total(runs@.take(i as int), user@, day),
            -(i as int) * 0x8000_0000 <= working <= (i as int) * 0x8000_0000,
            -(i as int) * 0x8000_0000 <= breaking <= (i as int) * 0x8000_0000,
        decreases runs.len() - i,
    {
        let run = &runs[i];
        assert(runs@.take(i + 1).drop_last() =~= runs@.take(i as int));
        if run.user == *user && (period == Period::AllTime || run.date == today) {
            working = working + run.working_time_secs as i128;
            breaking = breaking + run.breaking_time_secs as i128;
        }
        i = i + 1;
    }
    assert(runs@.take(runs.len() as int) =~= runs@);
    if -0x8000_0000 <= working && working <= 0x7fff_ffff && -0x8000_0000 <= breaking && breaking
        <= 0x7fff_ffff {
        Some((working as i32, breaking as i32))
    } else {
        None
    }
}

} // verus!
