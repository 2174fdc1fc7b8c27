//! A Pomodoro timer: a working phase, then a break, counted down by a thread
//! of its own that the controller can pause, resume, stop and ask for the
//! time that is left.
//!
//! The library holds every decision of the timer and leaves the waiting to
//! its caller. Nothing here sleeps, blocks or starts a thread:
//!
//! - [`pomodoro_timer`] is the controller's side: the state of the timer, its
//!   durations and its user, and the operations on them. Starting the timer
//!   hands out a [`run::Run`].
//! - [`run`] is the sequence of one run, working phase then break, with the
//!   notice and the session record that are due at the end of each phase.
//! - [`timer_runner`] is the countdown of one phase, as a state machine that
//!   is told the time and what the command channel gave, and says what to do
//!   next.
//! - [`timer_commander`] and [`channel`] are the link between the two sides:
//!   the commands travel on one channel of `std::sync::mpsc`, the remaining
//!   times come back on another.
//! - [`stats`] and [`models`] are the session records and the totals over
//!   them.
//! - [`commands`], [`history`], [`keys`] and [`ticker`] are the command
//!   line: reading a line, carrying it out, recalling earlier lines, what
//!   each key does, and when the display is due.
//! - [`time_span`] is the measure of time that all of them use.
//! - [`laws`] states what holds of every timer, run and countdown.
//!
//! A program that uses the library keeps the timer behind a lock, starts one
//! thread for each run that [`pomodoro_timer::PomodoroTimer::start_timer`]
//! hands out, and lets that thread follow the loop that [`timer_runner`]
//! describes.

pub mod channel;
pub mod commands;
pub mod history;
pub mod keys;
pub mod laws;
pub mod models;
pub mod pomodoro_timer;
pub mod run;
pub mod stats;
pub mod text;
pub mod ticker;
pub mod time_span;
pub mod timer_commander;
pub mod timer_runner;
