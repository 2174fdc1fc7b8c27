//! The timer as its controller sees it.
//!
//! A [`PomodoroTimer`] holds the two durations, the current state, the user
//! and, while a run is on, the link to the run's countdown: a commander for
//! the command channel and the receiving end of the telemetry channel.
//!
//! A run goes `Idle`, `Working`, `Breaking`, `Idle`. It begins here, with
//! [`PomodoroTimer::start_timer`], which hands out the [`Run`] for the
//! countdown thread. The thread publishes each later state with
//! [`PomodoroTimer::update_state`]; a timer that two threads use is kept
//! behind one lock, held for one call at a time.
//!
//! The view of a timer, [`TimerView`], holds in place of the commander the
//! commands handed to the current run and the channel end they go to, so
//! every operation says exactly which command it forwards, and that the
//! link stays the one to the same run.

use crate::channel::open_channels;
use crate::channel::try_receive_remaining;
use crate::models::local_today;
use crate::models::CalendarDate;
use crate::models::TimerRuns;
use crate::run::Run;
use crate::run::RunLink;
use crate::run::RunView;
use crate::stats::total_time;
use crate::stats::totals_of;
use crate::text::text_of;
use crate::time_span::nanos_of;
use crate::time_span::TimeSpan;
use crate::timer_commander::CommanderView;
use crate::timer_commander::TimerCommand;
use crate::timer_commander::TimerCommander;
use std::sync::mpsc::Receiver;
use vstd::prelude::*;

verus! {

/// The phase a timer is in.
#[derive(PartialEq, Eq, Structural, Clone, Copy, Debug, Hash)]
pub enum TimerState {
    Idle,
    Working,
    Breaking,
}

/// The stretch of time over which session totals are taken.
#[derive(PartialEq, Eq, Structural, Clone, Copy, Debug, Hash)]
pub enum Period {
    Today,
    AllTime,
}

/// What became of a command for the run.
#[derive(PartialEq, Eq, Structural, Clone, Copy, Debug, Hash)]
pub enum Forwarding {
    /// It went to the commander.
    Sent,
    /// The timer is idle: there is nothing to command.
    NotRunning,
    /// The timer has no commander: a run has to be started first.
    NoCommander,
}

/// A timer, over nanoseconds and characters.
pub struct TimerView {
    pub work_duration: nat,
    pub break_duration: nat,
    pub state: TimerState,
    /// The commander of the current run: what it has sent and where to.
    pub commander: Option<CommanderView>,
    /// The receiving end of the telemetry channel of the current run.
    pub receiver: Option<Receiver<TimeSpan>>,
    pub username: Option<Seq<char>>,
}

impl TimerView {
    /// A new timer: idle, with no run and no user.
    pub open spec fn fresh(work_duration_sec: u64, break_duration_sec: u64) -> TimerView {
        TimerView {
            work_duration: (work_duration_sec as nat) * 1_000_000_000,
            break_duration: (break_duration_sec as nat) * 1_000_000_000,
            state: TimerState::Idle,
            commander: None,
            receiver: None,
            username: None,
        }
    }

    /// The commands handed to the current run, oldest first; `None` when
    /// there is no commander.
    pub open spec fn sent(self) -> Option<Seq<TimerCommand>> {
        match self.commander {
            Some(commander) => Some(commander.sent),
            None => None,
        }
    }

    /// The timer in another state.
    pub open spec fn with_state(self, state: TimerState) -> TimerView {
        TimerView { state, ..self }
    }

    /// The timer after `command` went to the commander, if there is one.
    pub open spec fn forward(self, command: TimerCommand) -> TimerView {
        match self.commander {
            Some(commander) => TimerView { commander: Some(commander.send(command)), ..self },
            None => self,
        }
    }

    /// The timer after a run began whose channels end in `link`: it is
    /// working, its commander sends to the run and has sent nothing yet, and
    /// it receives what the run sends back.
    pub open spec fn begin_run(self, link: RunLink) -> TimerView {
        TimerView {
            state: TimerState::Working,
            commander: Some(CommanderView { sent: Seq::empty(), receiver: link.commands }),
            receiver: Some(link.telemetry),
            ..self
        }
    }

    /// The run that begins now: it takes the durations and the user as they
    /// are.
    pub open spec fn plan(self) -> RunView {
        RunView {
            working_duration: self.work_duration,
            break_duration: self.break_duration,
            username: self.username,
            phase: TimerState::Working,
        }
    }

    /// Whether `start_timer` begins a run.
    pub open spec fn starts_run(self) -> bool {
        self.state == TimerState::Idle
    }

    /// The timer after `start_timer`: an idle timer begins a run, whose
    /// channels end in `link`; any other one is told to go on, and keeps the
    /// link it has.
    pub open spec fn start(self, link: RunLink) -> TimerView {
        if self.starts_run() {
            self.begin_run(link)
        } else {
            self.resume()
        }
    }

    /// The timer after `pause_timer`.
    pub open spec fn pause(self) -> TimerView {
        if self.state == TimerState::Idle {
            self
        } else {
            self.forward(TimerCommand::Pause)
        }
    }

    /// The timer after `stop_timer`.
    pub open spec fn stop(self) -> TimerView {
        if self.state == TimerState::Idle {
            self
        } else {
            self.forward(TimerCommand::Stop).with_state(TimerState::Idle)
        }
    }

    /// The timer after `resume_timer`.
    pub open spec fn resume(self) -> TimerView {
        self.forward(TimerCommand::Start)
    }

    /// What becomes of a command that only a timer that is not idle
    /// forwards.
    pub open spec fn forwarding(self) -> Forwarding {
        if self.state == TimerState::Idle {
            Forwarding::NotRunning
        } else {
            self.resuming()
        }
    }

    /// What becomes of a command that is forwarded whatever the state.
    pub open spec fn resuming(self) -> Forwarding {
        if self.commander.is_some() {
            Forwarding::Sent
        } else {
            Forwarding::NoCommander
        }
    }

    /// Whether the timer has both ends of a link to a run.
    pub open spec fn linked(self) -> bool {
        self.commander.is_some() && self.receiver.is_some()
    }

    /// The timer without its link to a run.
    pub open spec fn unlinked(self) -> TimerView {
        TimerView { commander: None, receiver: None, ..self }
    }

    /// The timer after a query for the remaining time. A linked timer sends
    /// the query; when it is not `delivered`, the run is over and the link is
    /// dropped.
    pub open spec fn query(self, delivered: bool) -> TimerView {
        if !self.linked() {
            self
        } else if delivered {
            self.forward(TimerCommand::GetTimeRemaining)
        } else {
            self.unlinked()
        }
    }

    /// The answer to a query for the remaining time: the `reply` that was
    /// waiting, if the timer is linked and the query was `delivered`, and the
    /// work duration in every other case.
    pub open spec fn answer(self, delivered: bool, reply: Option<nat>) -> nat {
        if self.linked() && delivered && reply.is_some() {
            reply.unwrap()
        } else {
            self.work_duration
        }
    }

    /// The timer with `period` as the duration of the phase `state`; `Idle`
    /// has no duration.
    pub open spec fn with_period(self, period: nat, state: TimerState) -> TimerView {
        match state {
            TimerState::Idle => self,
            TimerState::Working => TimerView { work_duration: period, ..self },
            TimerState::Breaking => TimerView { break_duration: period, ..self },
        }
    }

    /// Whether a user may sign in now.
    pub open spec fn admits_sign_in(self) -> bool {
        self.state == TimerState::Idle
    }

    /// The timer after `username` tried to sign in.
    pub open spec fn sign_in(self, username: Seq<char>) -> TimerView {
        if self.admits_sign_in() {
            TimerView { username: Some(username), ..self }
        } else {
            self
        }
    }
}

/// Whether `after` has the link that `before` has: its commander, if it has
/// one, sends to the same channel end, and it receives at the same end.
pub open spec fn same_link(before: TimerView, after: TimerView) -> bool {
    &&& after.commander.is_some() == before.commander.is_some()
    &&& after.commander.is_some() ==> after.commander.unwrap().receiver
        == before.commander.unwrap().receiver
    &&& after.receiver == before.receiver
}

/// A Pomodoro timer.
pub struct PomodoroTimer {
    work_duration: TimeSpan,
    break_duration: TimeSpan,
    current_state: TimerState,
    commander: Option<TimerCommander>,
    receiver: Option<Receiver<TimeSpan>>,
    username: Option<String>,
}

impl View for PomodoroTimer {
    type V = TimerView;

    closed spec fn view(&self) -> TimerView {
        TimerView {
            work_duration: self.work_duration@,
            break_duration: self.break_duration@,
            state: self.current_state,
            commander: match self.commander {
                Some(commander) => Some(commander@),
                None => None,
            },
            receiver: self.receiver,
            username: text_of(self.username),
        }
    }
}

impl PomodoroTimer {
    /// A timer with the two durations in seconds: idle, with no run and no
    /// user.
    pub fn new(work_duration_sec: u64, break_duration_sec: u64) -> (timer: PomodoroTimer)
        ensures
            timer@ == TimerView::fresh(work_duration_sec, break_duration_sec),
            timer@.state == TimerState::Idle,
    {
        PomodoroTimer {
            work_duration: TimeSpan::from_secs(work_duration_sec),
            break_duration: TimeSpan::from_secs(break_duration_sec),
            current_state: TimerState::Idle,
            commander: None,
            receiver: None,
            username: None,
        }
    }

    /// Begins a run, whatever the state: the timer is working at once, and
    /// its link is to the new run, which holds the other ends of the two new
    /// channels. The run that comes back is to be counted down on a thread
    /// of its own.
    pub fn start_run(&mut self) -> (run: Run)
        ensures
            final(self)@ == old(self)@.begin_run(run.link()),
            run@ == old(self)@.plan(),
    {
        let ((tx, rx), (time_tx, time_rx)) = open_channels();
        self.commander = Some(TimerCommander::new(tx));
        self.receiver = Some(time_rx);
        self.current_state = TimerState::Working;
        let username = match &self.username {
            Some(name) => Some(name.clone()),
            None => None,
        };
        Run::new(self.work_duration, self.break_duration, username, rx, time_tx)
    }

    /// Publishes `new_state` as the current state.
    pub fn update_state(&mut self, new_state: TimerState)
        ensures
            final(self)@ == old(self)@.with_state(new_state),
            same_link(old(self)@, final(self)@),
    {
        self.current_state = new_state;
    }

    /// The current state.
    pub fn get_state(&self) -> (state: TimerState)
        ensures
            state == self@.state,
    {
        self.current_state
    }

    /// Whether the timer has a commander, so that commands reach a run.
    pub fn has_commander(&self) -> (has: bool)
        ensures
            has == self@.commander.is_some(),
    {
        self.commander.is_some()
    }

    /// Starts the timer. An idle timer begins a run, which comes back to be
    /// counted down. Any other timer has a run already: no second one
    /// begins, the link stays the one to the run there is, and the call
    /// resumes that run.
    pub fn start_timer(&mut self) -> (run: Option<Run>)
        ensures
            run.is_some() == old(self)@.starts_run(),
            run.is_some() ==> final(self)@ == old(self)@.begin_run(run.unwrap().link())
                && run.unwrap()@ == old(self)@.plan(),
            run.is_none() ==> final(self)@ == old(self)@.resume() && same_link(
                old(self)@,
                final(self)@,
            ),
    {
        if self.current_state == TimerState::Idle {
            Some(self.start_run())
        } else {
            self.resume_timer();
            None
        }
    }

    /// Pauses the run: `Pause` goes to the commander. Nothing happens when
    /// the timer is idle or has no commander, and the result says which.
    pub fn pause_timer(&mut self) -> (forwarding: Forwarding)
        ensures
            final(self)@ == old(self)@.pause(),
            same_link(old(self)@, final(self)@),
            forwarding == old(self)@.forwarding(),
    {
        if self.current_state == TimerState::Idle {
            return Forwarding::NotRunning;
        }
        match &mut self.commander {
            Some(commander) => {
                commander.pause_timer();
                Forwarding::Sent
            },
            None => Forwarding::NoCommander,
        }
    }

    /// Stops the run: the timer is idle at once, before the countdown has
    /// seen the `Stop` that goes to the commander. Nothing happens when the
    /// timer is idle already. The result says whether `Stop` was sent.
    pub fn stop_timer(&mut self) -> (forwarding: Forwarding)
        ensures
            final(self)@ == old(self)@.stop(),
            final(self)@.state == TimerState::Idle,
            same_link(old(self)@, final(self)@),
            forwarding == old(self)@.forwarding(),
    {
        if self.current_state == TimerState::Idle {
            return Forwarding::NotRunning;
        }
        self.current_state = TimerState::Idle;
        match &mut self.commander {
            Some(commander) => {
                commander.stop_timer();
                Forwarding::Sent
            },
            None => Forwarding::NoCommander,
        }
    }

    /// Resumes a paused run: `Start` goes to the commander, whatever the
    /// state. Nothing happens when there is no commander, and the result
    /// says so.
    pub fn resume_timer(&mut self) -> (forwarding: Forwarding)
        ensures
            final(self)@ == old(self)@.resume(),
            same_link(old(self)@, final(self)@),
            forwarding == old(self)@.resuming(),
    {
        match &mut self.commander {
            Some(commander) => {
                commander.resume_timer();
                Forwarding::Sent
            },
            None => Forwarding::NoCommander,
        }
    }

    /// The duration of the working phase of the runs to come.
    pub fn get_work_duration(&self) -> (duration: TimeSpan)
        ensures
            duration@ == self@.work_duration,
    {
        self.work_duration
    }

    /// The duration of the break of the runs to come.
    pub fn get_break_duration(&self) -> (duration: TimeSpan)
        ensures
            duration@ == self@.break_duration,
    {
        self.break_duration
    }

    /// Sets the duration of the working phase of the runs to come. A run
    /// that is on keeps the duration it began with.
    pub fn set_work_duration(&mut self, duration: TimeSpan)
        ensures
            final(self)@ == old(self)@.with_period(duration@, TimerState::Working),
            same_link(old(self)@, final(self)@),
    {
        self.work_duration = duration;
    }

    /// Sets the duration of the break of the runs to come. A run that is on
    /// keeps the duration it began with.
    pub fn set_break_duration(&mut self, duration: TimeSpan)
        ensures
            final(self)@ == old(self)@.with_period(duration@, TimerState::Breaking),
            same_link(old(self)@, final(self)@),
    {
        self.break_duration = duration;
    }

    /// The time left in the current phase, as far as it is known without
    /// waiting.
    ///
    /// A timer with a link sends `GetTimeRemaining`. If the countdown is gone
    /// the link is dropped. The answer is the oldest reply waiting on the
    /// telemetry channel; it is the work duration when there is no link, when
    /// the countdown is gone and when no reply is waiting yet. Whether the
    /// query is delivered and which reply waits is up to the countdown
    /// thread: [`PomodoroTimer::settle_query`] says what follows from each.
    pub fn get_remaining_time(&mut self) -> (left: TimeSpan)
        ensures
            exists|delivered: bool, reply: Option<nat>|
                {
                    &&& final(self)@ == #[trigger] old(self)@.query(delivered)
                    &&& left@ == #[trigger] old(self)@.answer(delivered, reply)
                },
            !old(self)@.linked() ==> final(self)@ == old(self)@ && left@ == old(
                self,
            )@.work_duration,
            same_link(old(self)@, final(self)@) || final(self)@ == old(self)@.unlinked(),
    {
        if self.receiver.is_some() && self.commander.is_some() {
            let delivered = match &mut self.commander {
                Some(commander) => commander.get_time_remaining(),
                None => false,
            };
            let reply = if delivered {
                match &self.receiver {
                    Some(receiver) => try_receive_remaining(receiver),
                    None => None,
                }
            } else {
                None
            };
            let left = self.settle_query(delivered, reply);
            proof {
                assert(final(self)@ == old(self)@.query(delivered));
                assert(left@ == old(self)@.answer(delivered, nanos_of(reply)));
            }
            left
        } else {
            proof {
                assert(final(self)@ == old(self)@.query(true));
                assert(self.work_duration@ == old(self)@.answer(true, None));
            }
            self.work_duration
        }
    }

    /// What follows from a query that was sent: when it was not `delivered`
    /// the link is dropped and the answer is the work duration; when it was,
    /// the answer is the `reply`, or the work duration for want of one.
    pub fn settle_query(&mut self, delivered: bool, reply: Option<TimeSpan>) -> (left: TimeSpan)
        ensures
            delivered ==> final(self)@ == old(self)@,
            !delivered ==> final(self)@ == old(self)@.unlinked(),
            left@ == if delivered && reply.is_some() {
                reply.unwrap()@
            } else {
                old(self)@.work_duration
            },
    {
        if !delivered {
            self.receiver = None;
            self.commander = None;
            return self.work_duration;
        }
        match reply {
            Some(left) => left,
            None => self.work_duration,
        }
    }

    /// Sets the duration of the phase `state` to `period`, for the runs to
    /// come. A run that is on is stopped first. `Idle` has no duration: the
    /// run is stopped and nothing else changes.
    pub fn set_state_time_period(&mut self, period: TimeSpan, state: TimerState)
        ensures
            final(self)@ == old(self)@.stop().with_period(period@, state),
            same_link(old(self)@, final(self)@),
    {
        let _stopped: Forwarding = self.stop_timer();
        match state {
            TimerState::Idle => {},
            TimerState::Working => {
                self.work_duration = period;
            },
            TimerState::Breaking => {
                self.break_duration = period;
            },
        }
    }

    /// Signs `username` in, which only an idle timer admits: a run that is on
    /// has taken the user it began with. Says whether the user is signed in
    /// now.
    pub fn sign_in(&mut self, username: &str) -> (signed_in: bool)
        ensures
            signed_in == old(self)@.admits_sign_in(),
            final(self)@ == old(self)@.sign_in(username@),
            same_link(old(self)@, final(self)@),
    {
        if self.current_state != TimerState::Idle {
            return false;
        }
        self.username = Some(username.to_owned());
        true
    }

    /// The user that is signed in, if any.
    pub fn get_username(&self) -> (username: Option<String>)
        ensures
            text_of(username) == self@.username,
    {
        match &self.username {
            Some(name) => Some(name.clone()),
            None => None,
        }
    }

    /// The working and the breaking seconds that the signed-in user has
    /// completed, among the stored `runs`: over all time, or today only.
    ///
    /// With no user signed in both are zero. `None` when a total does not fit
    /// in 32 bits. Which day today is comes from the clock of the machine:
    /// [`total_time`] says what the totals are for each day.
    pub fn get_total_time(&self, period: Period, runs: &Vec<TimerRuns>) -> (totals: Option<
        (i32, i32),
    >)
        ensures
            self@.username.is_none() ==> totals == Some((0i32, 0i32)),
            self@.username.is_some() && period == Period::AllTime ==> totals == totals_of(
                runs@,
                self@.username.unwrap(),
                None,
            ),
            self@.username.is_some() && period == Period::Today ==> exists|today: CalendarDate|
                today.in_calendar() && totals == #[trigger] totals_of(
                    runs@,
                    self@.username.unwrap(),
                    Some(today),
                ),
    {
        match &self.username {
            None => Some((0, 0)),
            Some(user) => {
                let today = local_today();
                total_time(runs, user, period, today)
            },
        }
    }

    /// Whether a user is signed in.
    pub fn is_user_signed_in(&self) -> (signed_in: bool)
        ensures
            signed_in == self@.username.is_some(),
    {
        self.username.is_some()
    }
}

} // verus!
