//! The controller's handle on a running countdown.
//!
//! A [`TimerCommander`] owns the sending end of a run's command channel. Its
//! view is the sequence of commands it has handed to the channel, with the
//! receiving end that they go to, so each method says exactly which command
//! it sends and where. Sending never blocks, and a send that finds the
//! countdown gone is not an error here: only
//! [`TimerCommander::get_time_remaining`] reports it.

use crate::channel::command_receiver_of;
use crate::channel::offered;
use crate::channel::send_command;
use std::sync::mpsc::Receiver;
use std::sync::mpsc::Sender;
use vstd::prelude::*;

verus! {

/// A directive from the controller to the countdown.
#[derive(Debug, PartialEq, Eq, Structural, Clone, Copy, Hash)]
pub enum TimerCommand {
    /// Hold the countdown until `Start` or `Stop`.
    Pause,
    /// Go on with a held countdown; ignored by one that is running.
    Start,
    /// End the countdown now.
    Stop,
    /// Report the time that is left.
    GetTimeRemaining,
}

/// A [`TimerCommander`] as what it has sent and where to.
pub struct CommanderView {
    /// The commands handed to the channel so far, oldest first.
    pub sent: Seq<TimerCommand>,
    /// The receiving end of the channel.
    pub receiver: Receiver<TimerCommand>,
}

impl CommanderView {
    /// The commander after it sent `command`.
    pub open spec fn send(self, command: TimerCommand) -> CommanderView {
        CommanderView { sent: self.sent.push(command), ..self }
    }
}

/// The sending half of a run's command channel.
pub struct TimerCommander {
    command_sender: Sender<TimerCommand>,
}

impl View for TimerCommander {
    type V = CommanderView;

    closed spec fn view(&self) -> CommanderView {
        CommanderView {
            sent: offered(self.command_sender),
            receiver: command_receiver_of(self.command_sender),
        }
    }
}

impl TimerCommander {
    /// A commander that sends through `tx`.
    pub fn new(tx: Sender<TimerCommand>) -> (commander: TimerCommander)
        ensures
            commander@ == (CommanderView {
                sent: offered(tx),
                receiver: command_receiver_of(tx),
            }),
    {
        TimerCommander { command_sender: tx }
    }

    /// Sends `Pause`.
    pub fn pause_timer(&mut self)
        ensures
            final(self)@ == old(self)@.send(TimerCommand::Pause),
    {
        let _delivered: bool = send_command(&mut self.command_sender, TimerCommand::Pause);
    }

    /// Sends `Stop`.
    pub fn stop_timer(&mut self)
        ensures
            final(self)@ == old(self)@.send(TimerCommand::Stop),
    {
        let _delivered: bool = send_command(&mut self.command_sender, TimerCommand::Stop);
    }

    /// Sends `Start`, which resumes a held countdown.
    pub fn resume_timer(&mut self)
        ensures
            final(self)@ == old(self)@.send(TimerCommand::Start),
    {
        let _delivered: bool = send_command(&mut self.command_sender, TimerCommand::Start);
    }

    /// Sends `GetTimeRemaining` and says whether the countdown was there to
    /// take it. `false` means that the run is over and this handle is stale.
    pub fn get_time_remaining(&mut self) -> (delivered: bool)
        ensures
            final(self)@ == old(self)@.send(TimerCommand::GetTimeRemaining),
    {
        send_command(&mut self.command_sender, TimerCommand::GetTimeRemaining)
    }
}

} // verus!
