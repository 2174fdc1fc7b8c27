//! The two channels of a run, as far as the timer relies on them.
//!
//! A run has a command channel, from the controller to the countdown, and a
//! telemetry channel back. Both are `std::sync::mpsc` channels. Nothing in
//! this module is proved: each function states what is taken on trust of the
//! std function it calls.

use crate::time_span::TimeSpan;
use crate::timer_commander::TimerCommand;
use std::sync::mpsc::Receiver;
use std::sync::mpsc::Sender;
use vstd::prelude::*;

verus! {

/// `std::sync::mpsc::Sender`, carried as an opaque value.
#[verifier::external_type_specification]
#[verifier::external_body]
#[verifier::reject_recursive_types(T)]
pub struct ExSender<T>(Sender<T>);

/// `std::sync::mpsc::Receiver`, carried as an opaque value.
#[verifier::external_type_specification]
#[verifier::external_body]
#[verifier::reject_recursive_types(T)]
pub struct ExReceiver<T>(Receiver<T>);

/// The commands that have been handed to a sending end since its channel was
/// made, oldest first, whether or not a receiver was there to take them. A
/// channel gives out what it was handed in this order.
pub uninterp spec fn offered(sender: Sender<TimerCommand>) -> Seq<TimerCommand>;

/// The receiving end of the channel that a sending end of commands belongs
/// to. A channel has one receiving end, and an end stays with its channel.
pub uninterp spec fn command_receiver_of(sender: Sender<TimerCommand>) -> Receiver<TimerCommand>;

/// The receiving end of the channel that a sending end of remaining times
/// belongs to.
pub uninterp spec fn telemetry_receiver_of(sender: Sender<TimeSpan>) -> Receiver<TimeSpan>;

/// `std::sync::mpsc::channel`, called once for each channel of a run: first
/// the two ends of the command channel, then those of the telemetry channel.
///
/// Taken on trust: the two ends that one call gives belong to one channel,
/// and nothing has been handed to the sending end of a channel that was just
/// made.
#[verifier::external_body]
pub(crate) fn open_channels() -> (ends: (
    (Sender<TimerCommand>, Receiver<TimerCommand>),
    (Sender<TimeSpan>, Receiver<TimeSpan>),
))
    ensures
        offered(ends.0.0) == Seq::<TimerCommand>::empty(),
        command_receiver_of(ends.0.0) == ends.0.1,
        telemetry_receiver_of(ends.1.0) == ends.1.1,
{
    (std::sync::mpsc::channel(), std::sync::mpsc::channel())
}

/// `Sender::send`, which never blocks.
///
/// Taken on trust: the command is the next one handed to this sending end,
/// which stays the end of the channel it was. The result says whether the
/// receiving end was still there to take the command; that depends on the
/// other thread, so nothing is claimed of it.
#[verifier::external_body]
pub(crate) fn send_command(sender: &mut Sender<TimerCommand>, command: TimerCommand) -> (delivered:
    bool)
    ensures
        offered(*final(sender)) == offered(*old(sender)).push(command),
        command_receiver_of(*final(sender)) == command_receiver_of(*old(sender)),
{
    sender.send(command).is_ok()
}

/// `Receiver::try_recv`, which never blocks: the oldest remaining time that is
/// waiting in the channel, if there is one. What is waiting depends on the
/// other thread, so nothing is claimed of the result.
#[verifier::external_body]
pub(crate) fn try_receive_remaining(receiver: &Receiver<TimeSpan>) -> (reply: Option<TimeSpan>) {
    receiver.try_recv().ok()
}

} // verus!
