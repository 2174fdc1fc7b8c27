//! One run: the working phase, then the break.
//!
//! A [`Run`] is what the countdown thread of one run owns: the durations and
//! the user as they were when the run began, and the receiving end of the
//! command channel and the sending end of the telemetry channel. Changing the
//! timer afterwards does not reach it.
//!
//! The thread counts down the phase with [`Run::countdown`], tells the run
//! how the countdown ended with [`Run::finish_phase`], and does what the
//! [`PhaseEnd`] says: show the notice, publish the state, store the record,
//! and go on with the next phase unless the state is `Idle`.

use crate::channel::telemetry_receiver_of;
use crate::models::create_timer_run;
use crate::models::NewTimerRun;
use crate::pomodoro_timer::TimerState;
use crate::text::text_of;
use crate::time_span::TimeSpan;
use crate::timer_commander::TimerCommand;
use crate::timer_runner::ExitCondition;
use crate::timer_runner::RunnerView;
use crate::timer_runner::TimerRunner;
use std::sync::mpsc::Receiver;
use std::sync::mpsc::Sender;
use vstd::prelude::*;

verus! {

/// A message for the user at the end of a phase.
#[derive(Debug, PartialEq, Eq, Structural, Clone, Copy, Hash)]
pub enum Notice {
    /// The working phase is over.
    BreakDue,
    /// The break is over.
    BreakOver,
}

impl Notice {
    /// The headline of every notice.
    pub fn summary(&self) -> (text: &'static str)
        ensures
            text@ == "PomodoroTimer"@,
    {
        "PomodoroTimer"
    }

    /// The text of the notice.
    pub fn body(&self) -> (text: &'static str)
        ensures
            *self == Notice::BreakDue ==> text@ == "Good work! Take a break before continuing."@,
            *self == Notice::BreakOver ==> text@
                == "The break is over! Continue with your good work."@,
    {
        match self {
            Notice::BreakDue => "Good work! Take a break before continuing.",
            Notice::BreakOver => "The break is over! Continue with your good work.",
        }
    }
}

/// The whole seconds of a span as a session record holds them: in 32 bits,
/// the higher bits cut off.
pub open spec fn record_secs(nanos: nat) -> i32 {
    ((nanos / 1_000_000_000) as u64) as i32
}

/// The whole seconds of `span` as a session record holds them.
pub fn whole_secs(span: TimeSpan) -> (secs: i32)
    ensures
        secs == record_secs(span@),
        span@ / 1_000_000_000 <= i32::MAX ==> secs == span@ / 1_000_000_000,
{
    #[verifier::truncate]
    (span.as_secs() as i32)
}

/// What is to be done at the end of a phase.
#[derive(Debug, PartialEq, Eq)]
pub struct PhaseEnd {
    /// The state to publish: the phase that begins, or `Idle` when the run
    /// is over.
    pub state: TimerState,
    /// The notice to show first, if any.
    pub notice: Option<Notice>,
    /// The session record to store once the state is published, if any.
    pub record: Option<NewTimerRun>,
}

/// A [`Run`] without its channel ends, over nanoseconds and characters.
pub struct RunView {
    pub working_duration: nat,
    pub break_duration: nat,
    pub username: Option<Seq<char>>,
    /// The phase that is counted down; `Idle` once the run is over.
    pub phase: TimerState,
}

impl RunView {
    /// The duration of the phase that is counted down.
    pub open spec fn phase_duration(self) -> nat {
        match self.phase {
            TimerState::Working => self.working_duration,
            TimerState::Breaking => self.break_duration,
            TimerState::Idle => 0,
        }
    }

    /// The phase that follows when the countdown ends with `exit`: the break
    /// after a completed working phase, `Idle` in every other case.
    pub open spec fn next_phase(self, exit: ExitCondition) -> TimerState {
        if self.phase == TimerState::Working && exit == ExitCondition::Completed {
            TimerState::Breaking
        } else {
            TimerState::Idle
        }
    }

    /// The run after its countdown ended with `exit`.
    pub open spec fn finish_phase(self, exit: ExitCondition) -> RunView {
        RunView { phase: self.next_phase(exit), ..self }
    }

    /// The notice at the end of the phase: one after each completed phase,
    /// none after a stop.
    pub open spec fn notice(self, exit: ExitCondition) -> Option<Notice> {
        if exit == ExitCondition::Completed && self.phase == TimerState::Working {
            Some(Notice::BreakDue)
        } else if exit == ExitCondition::Completed && self.phase == TimerState::Breaking {
            Some(Notice::BreakOver)
        } else {
            None
        }
    }

    /// Whether a session record is written at the end of the phase: when the
    /// break completes, so that the whole run has, and a user is signed in.
    pub open spec fn logs_session(self, exit: ExitCondition) -> bool {
        exit == ExitCondition::Completed && self.phase == TimerState::Breaking
            && self.username.is_some()
    }
}

/// The two ends at which the controller reaches a run: where its commands
/// arrive, and where the remaining times that the run sends come out.
pub struct RunLink {
    /// The receiving end of the command channel, which the run holds.
    pub commands: Receiver<TimerCommand>,
    /// The receiving end of the telemetry channel, which the controller
    /// holds.
    pub telemetry: Receiver<TimeSpan>,
}

/// One run, as its countdown thread holds it.
pub struct Run {
    working_duration: TimeSpan,
    break_duration: TimeSpan,
    username: Option<String>,
    phase: TimerState,
    command_receiver: Receiver<TimerCommand>,
    time_sender: Sender<TimeSpan>,
}

impl View for Run {
    type V = RunView;

    closed spec fn view(&self) -> RunView {
        RunView {
            working_duration: self.working_duration@,
            break_duration: self.break_duration@,
            username: text_of(self.username),
            phase: self.phase,
        }
    }
}

impl Run {
    /// The receiving end of the command channel.
    pub closed spec fn commands(&self) -> Receiver<TimerCommand> {
        self.command_receiver
    }

    /// The sending end of the telemetry channel.
    pub closed spec fn telemetry(&self) -> Sender<TimeSpan> {
        self.time_sender
    }

    /// The two ends at which the controller reaches this run.
    pub closed spec fn link(&self) -> RunLink {
        RunLink {
            commands: self.command_receiver,
            telemetry: telemetry_receiver_of(self.time_sender),
        }
    }

    /// A run in its working phase.
    pub(crate) fn new(
        working_duration: TimeSpan,
        break_duration: TimeSpan,
        username: Option<String>,
        command_receiver: Receiver<TimerCommand>,
        time_sender: Sender<TimeSpan>,
    ) -> (run: Run)
        ensures
            run@ == (RunView {
                working_duration: working_duration@,
                break_duration: break_duration@,
                username: text_of(username),
                phase: TimerState::Working,
            }),
            run.link() == (RunLink {
                commands: command_receiver,
                telemetry: telemetry_receiver_of(time_sender),
            }),
            run.commands() == command_receiver,
            run.telemetry() == time_sender,
    {
        Run {
            working_duration,
            break_duration,
            username,
            phase: TimerState::Working,
            command_receiver,
            time_sender,
        }
    }

    /// The phase that is counted down; `Idle` once the run is over.
    pub fn phase(&self) -> (phase: TimerState)
        ensures
            phase == self@.phase,
    {
        self.phase
    }

    /// A countdown of the current phase that has just begun.
    pub fn countdown(&self) -> (runner: TimerRunner)
        ensures
            runner@ == RunnerView::fresh(self@.phase_duration()),
            runner@.in_range(),
    {
        match self.phase {
            TimerState::Working => TimerRunner::new(self.working_duration),
            TimerState::Breaking => TimerRunner::new(self.break_duration),
            TimerState::Idle => TimerRunner::new(TimeSpan::zero()),
        }
    }

    /// The end of the command channel on which the controller's commands
    /// arrive.
    pub fn command_receiver(&self) -> (receiver: &Receiver<TimerCommand>)
        ensures
            *receiver == self.commands(),
            *receiver == self.link().commands,
    {
        &self.command_receiver
    }

    /// The end of the telemetry channel on which remaining times are sent
    /// back.
    pub fn time_sender(&self) -> (sender: &Sender<TimeSpan>)
        ensures
            *sender == self.telemetry(),
            telemetry_receiver_of(*sender) == self.link().telemetry,
    {
        &self.time_sender
    }

    /// Ends the current phase, whose countdown ended with `exit`.
    ///
    /// A completed working phase is followed by the break, with the notice
    /// that a break is due. A completed break ends the run, with the notice
    /// that it is over and, if a user is signed in, the session record of the
    /// run, dated today. A stop ends the run with neither. A run that is over
    /// stays so.
    pub fn finish_phase(&mut self, exit: ExitCondition) -> (end: PhaseEnd)
        ensures
            final(self)@ == old(self)@.finish_phase(exit),
            final(self).commands() == old(self).commands(),
            final(self).telemetry() == old(self).telemetry(),
            final(self).link() == old(self).link(),
            end.state == old(self)@.next_phase(exit),
            end.notice == old(self)@.notice(exit),
            end.record.is_some() == old(self)@.logs_session(exit),
            end.record.is_some() ==> {
                &&& Some(end.record.unwrap().user@) == old(self)@.username
                &&& end.record.unwrap().working_time_secs == record_secs(
                    old(self)@.working_duration,
                )
                &&& end.record.unwrap().breaking_time_secs == record_secs(
                    old(self)@.break_duration,
                )
                &&& end.record.unwrap().date.in_calendar()
            },
    {
        let phase = self.phase;
        if exit == ExitCondition::Completed && phase == TimerState::Working {
            self.phase = TimerState::Breaking;
            PhaseEnd { state: TimerState::Breaking, notice: Some(Notice::BreakDue), record: None }
        } else if exit == ExitCondition::Completed && phase == TimerState::Breaking {
            self.phase = TimerState::Idle;
            let record = match &self.username {
                Some(user) => Some(
                    create_timer_run(
                        user.as_str(),
                        whole_secs(self.working_duration),
                        whole_secs(self.break_duration),
                    ),
                ),
                None => None,
            };
            PhaseEnd { state: TimerState::Idle, notice: Some(Notice::BreakOver), record }
        } else {
            self.phase = TimerState::Idle;
            PhaseEnd { state: TimerState::Idle, notice: None, record: None }
        }
    }
}

} // verus!
