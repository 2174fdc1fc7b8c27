//! What holds of every timer, every run and every countdown.
//!
//! Each law is stated over the views that the contracts of the operations
//! use, so it holds of the operations themselves.

use crate::models::CalendarDate;
use crate::models::TimerRuns;
use crate::pomodoro_timer::TimerState;
use crate::pomodoro_timer::TimerView;
use crate::pomodoro_timer::same_link;
use crate::run::Notice;
use crate::run::RunLink;
use crate::run::RunView;
use crate::stats::breaking_total;
use crate::stats::counts;
use crate::stats::totals_of;
use crate::stats::working_total;
use crate::time_span::span_max;
use crate::time_span::sub_sat;
use crate::timer_commander::TimerCommand;
use crate::timer_runner::ExitCondition;
use crate::timer_runner::Received;
use crate::timer_runner::RunnerView;
use crate::timer_runner::TimerAction;
use vstd::prelude::*;

verus! {

/// A new timer is idle, whatever its durations.
pub proof fn new_timer_is_idle(work_duration_sec: u64, break_duration_sec: u64)
    ensures
        TimerView::fresh(work_duration_sec, break_duration_sec).state == TimerState::Idle,
{
}

/// A run whose two phases complete goes from working to the break and from
/// the break to idle, with a notice at each step.
pub proof fn completed_run_returns_to_idle(run: RunView)
    requires
        run.phase == TimerState::Working,
    ensures
        run.finish_phase(ExitCondition::Completed).phase == TimerState::Breaking,
        run.notice(ExitCondition::Completed) == Some(Notice::BreakDue),
        run.finish_phase(ExitCondition::Completed).finish_phase(ExitCondition::Completed).phase
            == TimerState::Idle,
        run.finish_phase(ExitCondition::Completed).notice(ExitCondition::Completed) == Some(
            Notice::BreakOver,
        ),
{
}

/// However its countdowns end, a run is over after two of them at most, and
/// the state it hands out last is idle.
pub proof fn run_is_over_after_two_phases(run: RunView, first: ExitCondition, second: ExitCondition)
    ensures
        run.finish_phase(first).finish_phase(second).phase == TimerState::Idle,
        run.finish_phase(ExitCondition::Terminated).phase == TimerState::Idle,
{
}

/// A session is logged at one point only: when the break of a signed-in
/// user's run completes. A stopped run logs nothing.
pub proof fn session_is_logged_once(run: RunView, exit: ExitCondition, later: ExitCondition)
    ensures
        run.logs_session(exit) ==> exit == ExitCondition::Completed && run.phase
            == TimerState::Breaking && run.username.is_some(),
        run.logs_session(exit) ==> run.finish_phase(exit).phase == TimerState::Idle,
        run.logs_session(exit) ==> !run.finish_phase(exit).logs_session(later),
        !run.logs_session(ExitCondition::Terminated),
{
}

/// A running countdown is over exactly when its duration has run: at once if
/// the duration is zero.
pub proof fn countdown_completes_when_due(duration: nat, elapsed: nat)
    ensures
        RunnerView::fresh(duration).next_action(elapsed) == if elapsed >= duration {
            TimerAction::Finish(ExitCondition::Completed)
        } else {
            TimerAction::Sleep
        },
{
}

/// A run of no length is over without a sleep: the countdown of each of its
/// phases finishes on the first look at the clock.
pub proof fn run_of_no_length_completes_at_once(run: RunView, elapsed: nat)
    requires
        run.working_duration == 0,
        run.break_duration == 0,
    ensures
        RunnerView::fresh(run.phase_duration()).next_action(elapsed) == TimerAction::Finish(
            ExitCondition::Completed,
        ),
        RunnerView::fresh(
            run.finish_phase(ExitCondition::Completed).phase_duration(),
        ).next_action(elapsed) == TimerAction::Finish(ExitCondition::Completed),
{
}

/// Only starting, stopping and publishing change the state of a timer:
/// pausing, resuming, asking for the remaining time and signing in leave it
/// as it is.
pub proof fn only_start_stop_and_publish_change_the_state(
    timer: TimerView,
    delivered: bool,
    username: Seq<char>,
    link: RunLink,
)
    ensures
        timer.pause().state == timer.state,
        timer.resume().state == timer.state,
        timer.query(delivered).state == timer.state,
        timer.sign_in(username).state == timer.state,
        timer.state != TimerState::Idle ==> timer.start(link).state == timer.state,
{
}

/// Only a new run changes the link of a timer. Pausing, resuming, stopping,
/// a second start, a query that is delivered, signing in, publishing a state
/// and setting a duration leave the commander sending to the channel end it
/// sent to, and the timer receiving at the end it received at.
pub proof fn only_a_new_run_changes_the_link(
    timer: TimerView,
    link: RunLink,
    username: Seq<char>,
    state: TimerState,
    period: nat,
)
    ensures
        same_link(timer, timer.pause()),
        same_link(timer, timer.resume()),
        same_link(timer, timer.stop()),
        same_link(timer, timer.query(true)),
        same_link(timer, timer.sign_in(username)),
        same_link(timer, timer.with_state(state)),
        same_link(timer, timer.with_period(period, state)),
        timer.state != TimerState::Idle ==> same_link(timer, timer.start(link)),
{
}

/// Pausing leaves the state of the timer as it is.
pub proof fn pause_holds_state(timer: TimerView)
    ensures
        timer.pause().state == timer.state,
        timer.pause().work_duration == timer.work_duration,
        timer.pause().break_duration == timer.break_duration,
{
}

/// A paused countdown stays paused however much time passes. It does not
/// finish, and nothing but `Start`, `Stop` or the loss of the controller ends
/// the pause.
pub proof fn paused_countdown_waits(runner: RunnerView, elapsed: nat, received: Received)
    requires
        runner.pause.is_some(),
    ensures
        runner.next_action(elapsed) == TimerAction::Receive,
        received != Received::Command(TimerCommand::Start) ==> runner.after(elapsed, received)
            == runner,
        received != Received::Command(TimerCommand::Stop) && received != Received::Disconnected
            ==> runner.step(elapsed, received).exit.is_none(),
        runner.step(elapsed, Received::Command(TimerCommand::GetTimeRemaining)).reply == Some(
            runner.pause.unwrap().remaining,
        ),
{
}

/// A paused countdown stays as it is through any number of observations
/// among which there is no `Start`, and ends on none of them unless it is a
/// `Stop` or the loss of the controller.
pub proof fn paused_countdown_waits_through(runner: RunnerView, seen: Seq<(nat, Received)>)
    requires
        runner.pause.is_some(),
        forall|i: int|
            0 <= i < seen.len() ==> (#[trigger] seen[i]).1 != Received::Command(
                TimerCommand::Start,
            ),
    ensures
        runner.after_all(seen) == runner,
        forall|i: int|
            0 <= i < seen.len() && (#[trigger] seen[i]).1 != Received::Command(TimerCommand::Stop)
                && seen[i].1 != Received::Disconnected ==> runner.after_all(seen.take(i)).step(
                seen[i].0,
                seen[i].1,
            ).exit.is_none(),
    decreases seen.len(),
{
    if seen.len() > 0 {
        paused_countdown_waits_through(runner, seen.drop_last());
        assert forall|i: int|
            0 <= i < seen.len() && (#[trigger] seen[i]).1 != Received::Command(TimerCommand::Stop)
                && seen[i].1 != Received::Disconnected implies runner.after_all(
            seen.take(i),
        ).step(seen[i].0, seen[i].1).exit.is_none() by {
            paused_countdown_waits_through(runner, seen.take(i));
        }
    }
}

/// Through any number of observations, at times that a span can hold, the
/// duration of a countdown stays what it was and the time spent paused does
/// not shrink.
pub proof fn countdown_keeps_its_duration_through(runner: RunnerView, seen: Seq<(nat, Received)>)
    requires
        runner.in_range(),
        forall|i: int| 0 <= i < seen.len() ==> (#[trigger] seen[i]).0 <= span_max(),
    ensures
        runner.after_all(seen).in_range(),
        runner.after_all(seen).duration == runner.duration,
        runner.after_all(seen).time_in_pause >= runner.time_in_pause,
    decreases seen.len(),
{
    if seen.len() > 0 {
        countdown_keeps_its_duration_through(runner, seen.drop_last());
        countdown_keeps_its_duration(
            runner.after_all(seen.drop_last()),
            seen.last().0,
            seen.last().1,
        );
    }
}

/// A countdown that sees `Stop` ends at once, whether it runs or is paused
/// and whatever the time.
pub proof fn stop_ends_every_countdown(runner: RunnerView, elapsed: nat)
    ensures
        runner.step(elapsed, Received::Command(TimerCommand::Stop)).exit == Some(
            ExitCondition::Terminated,
        ),
        runner.step(elapsed, Received::Command(TimerCommand::Stop)).reply.is_none(),
{
}

/// A pause costs no time, whatever its length. The remaining time that was
/// frozen when the pause began at `paused_at` is the remaining time when the
/// countdown goes on at `resumed_at`. At `asked_at` after that, only the
/// time since `resumed_at` has gone from it; this last part is stated of a
/// clock that has passed the time spent paused, as every clock that runs
/// forward has.
pub proof fn pause_preserves_remaining(
    runner: RunnerView,
    paused_at: nat,
    resumed_at: nat,
    asked_at: nat,
)
    requires
        runner.in_range(),
        runner.pause.is_none(),
        paused_at <= resumed_at <= asked_at,
        resumed_at <= span_max(),
    ensures
        ({
            let held = runner.after(paused_at, Received::Command(TimerCommand::Pause));
            let resumed = held.after(resumed_at, Received::Command(TimerCommand::Start));
            &&& held.pause.is_some()
            &&& held.pause.unwrap().remaining == runner.remaining(paused_at)
            &&& held.answer(resumed_at) == runner.remaining(paused_at)
            &&& resumed.pause.is_none()
            &&& resumed.duration == runner.duration
            &&& resumed.remaining(resumed_at) == runner.remaining(paused_at)
            &&& resumed_at >= runner.time_in_pause ==> resumed.remaining(asked_at) == sub_sat(
                runner.remaining(paused_at),
                (asked_at - resumed_at) as nat,
            )
        }),
{
}

/// A countdown that was paused and went on is over exactly when the time
/// elapsed, less the pause and the pauses before it, has reached the
/// duration: the pause puts the end off by its own length and no more.
pub proof fn pause_puts_the_end_off_by_its_length(
    runner: RunnerView,
    paused_at: nat,
    resumed_at: nat,
    asked_at: nat,
)
    requires
        runner.in_range(),
        runner.pause.is_none(),
        runner.time_in_pause <= paused_at <= resumed_at <= asked_at,
        resumed_at <= span_max(),
    ensures
        ({
            let held = runner.after(paused_at, Received::Command(TimerCommand::Pause));
            let resumed = held.after(resumed_at, Received::Command(TimerCommand::Start));
            &&& resumed.time_in_pause == runner.time_in_pause + (resumed_at - paused_at)
            &&& resumed.expired(asked_at) == (asked_at - (resumed_at - paused_at)
                - runner.time_in_pause >= runner.duration)
            &&& resumed.expired(asked_at) == runner.expired(
                (asked_at - (resumed_at - paused_at)) as nat,
            )
        }),
{
}

/// The duration of a countdown never changes, and the time it has spent
/// paused never shrinks.
pub proof fn countdown_keeps_its_duration(runner: RunnerView, elapsed: nat, received: Received)
    requires
        runner.in_range(),
        elapsed <= span_max(),
    ensures
        runner.after(elapsed, received).in_range(),
        runner.after(elapsed, received).duration == runner.duration,
        runner.after(elapsed, received).time_in_pause >= runner.time_in_pause,
{
}

/// A running countdown is over exactly when the time it has been active,
/// which is the time elapsed less the time spent paused, has reached its
/// duration; until then the time left is the duration less the active time.
pub proof fn active_time_decides(runner: RunnerView, elapsed: nat)
    ensures
        runner.expired(elapsed) == (runner.active(elapsed) >= runner.duration),
        elapsed >= runner.time_in_pause ==> runner.active(elapsed) == elapsed
            - runner.time_in_pause,
        !runner.expired(elapsed) ==> runner.remaining(elapsed) == runner.duration
            - runner.active(elapsed),
        runner.remaining(elapsed) <= runner.duration,
{
}

/// After `stop_timer` the timer is idle, whatever its state was and however
/// much time was left.
pub proof fn stop_yields_idle(timer: TimerView)
    ensures
        timer.stop().state == TimerState::Idle,
        timer.state != TimerState::Idle && timer.sent().is_some() ==> timer.stop().sent() == Some(
            timer.sent().unwrap().push(TimerCommand::Stop),
        ),
{
}

/// A timer that has been started begins no second run: the second
/// `start_timer` only resumes. It sends `Start` to the run there is, and the
/// timer keeps the two channel ends of that run, whatever ends a second run
/// would have had.
pub proof fn second_start_only_resumes(timer: TimerView, first: RunLink, second: RunLink)
    ensures
        !timer.start(first).starts_run(),
        timer.start(first).start(second) == timer.start(first).resume(),
        timer.start(first).start(second).state == timer.start(first).state,
        same_link(timer.start(first), timer.start(first).start(second)),
        timer.starts_run() ==> {
            &&& timer.start(first).start(second).sent() == Some(seq![TimerCommand::Start])
            &&& timer.start(first).start(second).commander.unwrap().receiver == first.commands
            &&& timer.start(first).start(second).receiver == Some(first.telemetry)
        },
{
}

/// Signing in while a run is on fails and changes nothing; signing in while
/// idle sets the user and nothing else.
pub proof fn sign_in_needs_idle(timer: TimerView, username: Seq<char>)
    ensures
        timer.state != TimerState::Idle ==> !timer.admits_sign_in() && timer.sign_in(username)
            == timer,
        timer.state == TimerState::Idle ==> timer.admits_sign_in() && timer.sign_in(username)
            == (TimerView { username: Some(username), ..timer }),
{
}

/// A run takes the durations and the user as they are when it begins. A
/// duration that is set while the run is on leaves the state and the link as
/// they are, and is the duration of the run that begins next.
pub proof fn run_keeps_its_durations(timer: TimerView, link: RunLink, period: nat)
    ensures
        timer.plan().working_duration == timer.work_duration,
        timer.plan().break_duration == timer.break_duration,
        timer.plan().username == timer.username,
        timer.begin_run(link).with_period(period, TimerState::Working).state
            == TimerState::Working,
        timer.begin_run(link).with_period(period, TimerState::Working).commander
            == timer.begin_run(link).commander,
        timer.begin_run(link).with_period(period, TimerState::Working).plan().working_duration
            == period,
        timer.begin_run(link).with_period(period, TimerState::Breaking).plan().break_duration
            == period,
{
}

/// A session that is stored adds its two times to the totals of its user,
/// over all time and on its day, and leaves every other total as it was.
pub proof fn new_session_adds_to_the_totals(
    runs: Seq<TimerRuns>,
    record: TimerRuns,
    user: Seq<char>,
    day: Option<CalendarDate>,
)
    ensures
        working_total(runs.push(record), user, day) == working_total(runs, user, day) + if counts(
            record,
            user,
            day,
        ) {
            record.working_time_secs as int
        } else {
            0
        },
        breaking_total(runs.push(record), user, day) == breaking_total(runs, user, day)
            + if counts(record, user, day) {
            record.breaking_time_secs as int
        } else {
            0
        },
        counts(record, record.user@, Some(record.date)),
        counts(record, record.user@, None),
        user != record.user@ ==> !counts(record, user, day),
{
    assert(runs.push(record).drop_last() =~= runs);
}

/// The totals over the record of one run are the two times of that run for
/// its user on its day, and zero for anybody else.
pub proof fn totals_of_one_session(record: TimerRuns, other: Seq<char>)
    requires
        other != record.user@,
    ensures
        totals_of(seq![record], record.user@, Some(record.date)) == Some(
            (record.working_time_secs, record.breaking_time_secs),
        ),
        totals_of(seq![record], record.user@, None) == Some(
            (record.working_time_secs, record.breaking_time_secs),
        ),
        totals_of(seq![record], other, Some(record.date)) == Some((0i32, 0i32)),
        totals_of(seq![record], other, None) == Some((0i32, 0i32)),
{
    reveal_with_fuel(working_total, 3);
    reveal_with_fuel(breaking_total, 3);
}

} // verus!
