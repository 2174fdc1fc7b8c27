//! The countdown of one phase.
//!
//! A [`TimerRunner`] is the countdown as a state machine. It holds no clock
//! and no channel: the thread that drives it reads the clock, sleeps and
//! receives, and hands what it saw to the runner, which decides.
//!
//! The driving loop is
//!
//! 1. ask [`TimerRunner::next_action`] with the time elapsed since the phase
//!    began;
//! 2. on [`TimerAction::Finish`] stop; on [`TimerAction::Sleep`] sleep for
//!    [`POLL_QUANTUM_MILLIS`] and poll the command channel without blocking;
//!    on [`TimerAction::Receive`] block on the command channel;
//! 3. hand the elapsed time and what the channel gave to
//!    [`TimerRunner::run_timer`], send the reply it asks for, and stop if it
//!    says so.
//!
//! Time spent paused does not count: the countdown is over when the time it
//! has been active, which is the time elapsed less the time spent paused,
//! reaches the duration. The duration itself never changes.

use crate::time_span::add_sat;
use crate::time_span::lemma_span_in_range;
use crate::time_span::span_max;
use crate::time_span::sub_sat;
use crate::time_span::TimeSpan;
use crate::timer_commander::TimerCommand;
use vstd::prelude::*;

verus! {

/// The time a running countdown sleeps between two polls, in milliseconds.
pub const POLL_QUANTUM_MILLIS: u64 = 10;

/// How a countdown ended.
#[derive(Debug, PartialEq, Eq, Structural, Clone, Copy, Hash)]
pub enum ExitCondition {
    /// The whole duration has run.
    Completed,
    /// The countdown was stopped before its time.
    Terminated,
}

/// What a receive on the command channel gave.
#[derive(Debug, PartialEq, Eq, Structural, Clone, Copy, Hash)]
pub enum Received {
    /// Nothing was waiting.
    Empty,
    /// The oldest waiting command.
    Command(TimerCommand),
    /// Nothing was waiting, and the sending end is gone.
    Disconnected,
}

/// The outside work that a countdown asks for next.
#[derive(Debug, PartialEq, Eq, Structural, Clone, Copy, Hash)]
pub enum TimerAction {
    /// Sleep for the poll quantum, then poll the command channel.
    Sleep,
    /// Block until the command channel gives a command or is closed.
    Receive,
    /// Leave the loop.
    Finish(ExitCondition),
}

/// What a countdown decided on one observation.
#[derive(Debug, PartialEq, Eq, Clone, Copy)]
pub struct Step {
    /// The remaining time to send on the telemetry channel, if one was asked
    /// for.
    pub reply: Option<TimeSpan>,
    /// How the countdown ended, if it did.
    pub exit: Option<ExitCondition>,
}

/// A [`Step`] over nanoseconds.
pub struct StepView {
    pub reply: Option<nat>,
    pub exit: Option<ExitCondition>,
}

impl View for Step {
    type V = StepView;

    open spec fn view(&self) -> StepView {
        StepView {
            reply: match self.reply {
                Some(span) => Some(span@),
                None => None,
            },
            exit: self.exit,
        }
    }
}

/// A pause in progress, over nanoseconds.
pub struct PauseView {
    /// The elapsed time at which the pause began.
    pub since: nat,
    /// The remaining time at that moment, which queries are answered with.
    pub remaining: nat,
}

/// A countdown, over nanoseconds.
pub struct RunnerView {
    /// The active time the phase takes.
    pub duration: nat,
    /// The time spent in pauses that are over.
    pub time_in_pause: nat,
    /// The pause in progress, if the countdown is paused.
    pub pause: Option<PauseView>,
}

impl RunnerView {
    /// Every time in the countdown is one that a [`TimeSpan`] can hold, and a
    /// pause in progress began no earlier than the time spent in the pauses
    /// before it. This holds of every [`TimerRunner`].
    pub open spec fn in_range(self) -> bool {
        &&& self.duration <= span_max()
        &&& self.time_in_pause <= span_max()
        &&& self.pause.is_some() ==> {
            &&& self.time_in_pause <= self.pause.unwrap().since <= span_max()
            &&& self.pause.unwrap().remaining <= self.duration
        }
    }

    /// A countdown of `duration` that has just begun.
    pub open spec fn fresh(duration: nat) -> RunnerView {
        RunnerView { duration, time_in_pause: 0, pause: None }
    }

    /// The time the countdown has been active at `elapsed`: the time elapsed
    /// less the time spent in the pauses that are over.
    pub open spec fn active(self, elapsed: nat) -> nat {
        sub_sat(elapsed, self.time_in_pause)
    }

    /// Whether the whole duration has run at `elapsed`: the active time has
    /// reached it.
    pub open spec fn expired(self, elapsed: nat) -> bool {
        self.active(elapsed) >= self.duration
    }

    /// The time left at `elapsed`: the duration less the active time, never
    /// below zero.
    pub open spec fn remaining(self, elapsed: nat) -> nat {
        sub_sat(self.duration, self.active(elapsed))
    }

    /// The time at which a pause begins that is asked for at `elapsed`:
    /// `elapsed`, and no earlier than the time already spent paused, which a
    /// clock that runs forward has always passed.
    pub open spec fn pause_start(self, elapsed: nat) -> nat {
        if elapsed >= self.time_in_pause {
            elapsed
        } else {
            self.time_in_pause
        }
    }

    /// The outside work to do next at `elapsed`.
    pub open spec fn next_action(self, elapsed: nat) -> TimerAction {
        if self.pause.is_some() {
            TimerAction::Receive
        } else if self.expired(elapsed) {
            TimerAction::Finish(ExitCondition::Completed)
        } else {
            TimerAction::Sleep
        }
    }

    /// What a query is answered with at `elapsed`: the time left while the
    /// countdown runs, the time that was left when the pause began while it
    /// is paused.
    pub open spec fn answer(self, elapsed: nat) -> nat {
        match self.pause {
            Some(pause) => pause.remaining,
            None => self.remaining(elapsed),
        }
    }

    /// The countdown after it saw `received` at `elapsed`.
    ///
    /// `Pause` holds a running countdown, and freezes the time left. `Start`
    /// lets a paused one go on, and adds the length of the pause to the time
    /// spent paused. Nothing else changes a countdown.
    pub open spec fn after(self, elapsed: nat, received: Received) -> RunnerView {
        match (self.pause, received) {
            (None, Received::Command(TimerCommand::Pause)) => RunnerView {
                pause: Some(
                    PauseView {
                        since: self.pause_start(elapsed),
                        remaining: self.remaining(elapsed),
                    },
                ),
                ..self
            },
            (Some(pause), Received::Command(TimerCommand::Start)) => RunnerView {
                time_in_pause: add_sat(self.time_in_pause, sub_sat(elapsed, pause.since)),
                pause: None,
                ..self
            },
            _ => self,
        }
    }

    /// The remaining time that the countdown sends back when it sees
    /// `received` at `elapsed`: an answer to `GetTimeRemaining`, and nothing
    /// else.
    pub open spec fn reply_to(self, elapsed: nat, received: Received) -> Option<nat> {
        if received == Received::Command(TimerCommand::GetTimeRemaining) {
            Some(self.answer(elapsed))
        } else {
            None
        }
    }

    /// How the countdown ends when it sees `received`, if it does: `Stop`
    /// terminates it, and so does the loss of the controller while it is
    /// paused.
    pub open spec fn exit_on(self, received: Received) -> Option<ExitCondition> {
        if received == Received::Command(TimerCommand::Stop) || (self.pause.is_some() && received
            == Received::Disconnected) {
            Some(ExitCondition::Terminated)
        } else {
            None
        }
    }

    /// What the countdown decides when it sees `received` at `elapsed`.
    pub open spec fn step(self, elapsed: nat, received: Received) -> StepView {
        StepView { reply: self.reply_to(elapsed, received), exit: self.exit_on(received) }
    }

    /// The countdown after it saw, one after the other, what `seen` holds:
    /// each time the elapsed time and what the channel gave.
    pub open spec fn after_all(self, seen: Seq<(nat, Received)>) -> RunnerView
        decreases seen.len(),
    {
        if seen.len() == 0 {
            self
        } else {
            self.after_all(seen.drop_last()).after(seen.last().0, seen.last().1)
        }
    }
}

/// A pause in progress.
#[derive(Debug, Clone, Copy)]
struct PauseMark {
    since: TimeSpan,
    remaining: TimeSpan,
}

/// The countdown of one phase.
#[derive(Debug, Clone, Copy)]
pub struct TimerRunner {
    duration: TimeSpan,
    time_in_pause: TimeSpan,
    pause: Option<PauseMark>,
}

impl View for TimerRunner {
    type V = RunnerView;

    closed spec fn view(&self) -> RunnerView {
        RunnerView {
            duration: self.duration@,
            time_in_pause: self.time_in_pause@,
            pause: match self.pause {
                Some(mark) => Some(PauseView { since: mark.since@, remaining: mark.remaining@ }),
                None => None,
            },
        }
    }
}

impl TimerRunner {
    /// A pause in progress began no earlier than the time spent in the
    /// pauses before it, and froze no more than the duration.
    #[verifier::type_invariant]
    spec fn well_formed(self) -> bool {
        self.pause.is_some() ==> self.time_in_pause@ <= self.pause.unwrap().since@
            && self.pause.unwrap().remaining@ <= self.duration@
    }

    /// A countdown of `duration` that has just begun: no time has been spent
    /// paused, and it is running.
    pub fn new(duration: TimeSpan) -> (runner: TimerRunner)
        ensures
            runner@ == RunnerView::fresh(duration@),
            runner@.in_range(),
    {
        proof {
            lemma_span_in_range(duration);
        }
        TimerRunner { duration, time_in_pause: TimeSpan::zero(), pause: None }
    }

    /// The active time the phase takes.
    pub fn duration(&self) -> (duration: TimeSpan)
        ensures
            duration@ == self@.duration,
    {
        self.duration
    }

    /// The time spent in pauses that are over.
    pub fn time_in_pause(&self) -> (paused: TimeSpan)
        ensures
            paused@ == self@.time_in_pause,
    {
        self.time_in_pause
    }

    /// Whether the countdown is paused.
    pub fn is_paused(&self) -> (paused: bool)
        ensures
            paused == self@.pause.is_some(),
    {
        self.pause.is_some()
    }

    fn active(&self, elapsed: TimeSpan) -> (active: TimeSpan)
        ensures
            active@ == self@.active(elapsed@),
    {
        elapsed.saturating_sub(&self.time_in_pause)
    }

    /// Whether the whole duration has run at `elapsed`, pauses left out.
    pub fn is_expired(&self, elapsed: TimeSpan) -> (expired: bool)
        ensures
            expired == self@.expired(elapsed@),
    {
        self.duration.le(&self.active(elapsed))
    }

    /// The time left at `elapsed`, never below zero. While the countdown is
    /// paused this is the time that was left when the pause began.
    pub fn remaining(&self, elapsed: TimeSpan) -> (left: TimeSpan)
        ensures
            left@ == self@.answer(elapsed@),
    {
        match self.pause {
            Some(mark) => mark.remaining,
            None => self.duration.saturating_sub(&self.active(elapsed)),
        }
    }

    /// The outside work to do next, `elapsed` after the phase began: a paused
    /// countdown waits for a command however much time has passed, a running
    /// one finishes once its duration has run and sleeps until then.
    pub fn next_action(&self, elapsed: TimeSpan) -> (action: TimerAction)
        ensures
            action == self@.next_action(elapsed@),
    {
        if self.pause.is_some() {
            TimerAction::Receive
        } else if self.is_expired(elapsed) {
            TimerAction::Finish(ExitCondition::Completed)
        } else {
            TimerAction::Sleep
        }
    }

    /// One observation of the command channel, made `elapsed` after the phase
    /// began.
    ///
    /// While the countdown runs: `Pause` holds it, with the remaining time
    /// frozen at its value now; `Stop` ends it; `GetTimeRemaining` is
    /// answered with the remaining time; `Start`, an empty channel and a
    /// closed one change nothing.
    ///
    /// While it is paused: `Start` lets it go on, and the length of the pause
    /// is added to the time spent paused; `GetTimeRemaining` is answered with
    /// the frozen remaining time; `Stop` and a closed channel end it; `Pause`
    /// and an empty channel change nothing.
    pub fn run_timer(&mut self, elapsed: TimeSpan, received: Received) -> (step: Step)
        ensures
            final(self)@ == old(self)@.after(elapsed@, received),
            step@ == old(self)@.step(elapsed@, received),
            old(self)@.in_range(),
            final(self)@.in_range(),
    {
        proof {
            use_type_invariant(&*self);
            lemma_span_in_range(self.duration);
            lemma_span_in_range(self.time_in_pause);
            if self.pause.is_some() {
                lemma_span_in_range(self.pause.unwrap().since);
            }
            lemma_span_in_range(elapsed);
        }
        match self.pause {
            Some(mark) => self.wait_for_resume(mark.remaining, mark.since, elapsed, received),
            None => self.check_for_new_command(elapsed, received),
        }
    }

    /// What a running countdown does with `received`.
    fn check_for_new_command(&mut self, elapsed: TimeSpan, received: Received) -> (step: Step)
        requires
            old(self)@.pause.is_none(),
        ensures
            final(self)@ == old(self)@.after(elapsed@, received),
            step@ == old(self)@.step(elapsed@, received),
    {
        match received {
            Received::Command(TimerCommand::Pause) => {
                let remaining = self.remaining(elapsed);
                let since = if elapsed.lt(&self.time_in_pause) {
                    self.time_in_pause
                } else {
                    elapsed
                };
                self.pause = Some(PauseMark { since, remaining });
                Step { reply: None, exit: None }
            },
            Received::Command(TimerCommand::Stop) => Step {
                reply: None,
                exit: Some(ExitCondition::Terminated),
            },
            Received::Command(TimerCommand::GetTimeRemaining) => Step {
                reply: Some(self.remaining(elapsed)),
                exit: None,
            },
            Received::Command(TimerCommand::Start) | Received::Empty | Received::Disconnected => Step {
                reply: None,
                exit: None,
            },
        }
    }

    /// What a countdown that has been paused since `since`, with `remaining`
    /// left, does with `received`.
    fn wait_for_resume(
        &mut self,
        remaining: TimeSpan,
        since: TimeSpan,
        elapsed: TimeSpan,
        received: Received,
    ) -> (step: Step)
        requires
            old(self)@.pause == Some(PauseView { since: since@, remaining: remaining@ }),
        ensures
            final(self)@ == old(self)@.after(elapsed@, received),
            step@ == old(self)@.step(elapsed@, received),
    {
        match received {
            Received::Command(TimerCommand::Start) => {
                let paused = elapsed.saturating_sub(&since);
                self.pause = None;
                self.time_in_pause = self.time_in_pause.saturating_add(&paused);
                Step { reply: None, exit: None }
            },
            Received::Command(TimerCommand::GetTimeRemaining) => Step {
                reply: Some(remaining),
                exit: None,
            },
            Received::Command(TimerCommand::Stop) | Received::Disconnected => Step {
                reply: None,
                exit: Some(ExitCondition::Terminated),
            },
            Received::Command(TimerCommand::Pause) | Received::Empty => Step {
                reply: None,
                exit: None,
            },
        }
    }
}

} // verus!
