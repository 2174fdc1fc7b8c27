//! The tick of the display: one every second, counted from the last tick
//! that was due and not from the moment it was noticed, so that late ticks
//! do not add up.

use crate::time_span::add_sat;
use crate::time_span::sub_sat;
use crate::time_span::TimeSpan;
use vstd::prelude::*;

verus! {

/// The time from one tick to the next, in milliseconds.
pub const TICK_MILLIS: u64 = 1000;

/// The time from one tick to the next, in nanoseconds.
pub open spec fn tick_period() -> nat {
    1_000_000_000
}

/// The outside work that a ticker asks for.
#[derive(Debug, PartialEq, Eq, Clone, Copy)]
pub enum TickAction {
    /// A tick is due: announce it.
    Tick,
    /// No tick is due: sleep for the given time.
    Sleep(TimeSpan),
}

/// A [`TickAction`] over nanoseconds.
pub enum TickActionView {
    Tick,
    Sleep(nat),
}

impl View for TickAction {
    type V = TickActionView;

    open spec fn view(&self) -> TickActionView {
        match *self {
            TickAction::Tick => TickActionView::Tick,
            TickAction::Sleep(wait) => TickActionView::Sleep(wait@),
        }
    }
}

/// What a ticker whose next tick is due at `due` asks for at `now`.
pub open spec fn action_at(due: nat, now: nat) -> TickActionView {
    if now >= due {
        TickActionView::Tick
    } else {
        TickActionView::Sleep(sub_sat(due, now))
    }
}

/// When the next tick is due after a look at the clock at `now`: one period
/// after the last, if that one was due.
pub open spec fn due_after(due: nat, now: nat) -> nat {
    if now >= due {
        add_sat(due, tick_period())
    } else {
        due
    }
}

/// The schedule of the ticks.
#[derive(Debug, Clone, Copy)]
pub struct Ticker {
    next_tick: TimeSpan,
}

impl View for Ticker {
    type V = nat;

    /// The time at which the next tick is due, in nanoseconds.
    closed spec fn view(&self) -> nat {
        self.next_tick@
    }
}

impl Ticker {
    /// A ticker that is started at `now`: the first tick is due one period
    /// later.
    pub fn new(now: TimeSpan) -> (ticker: Ticker)
        ensures
            ticker@ == add_sat(now@, tick_period()),
    {
        Ticker { next_tick: now.saturating_add(&TimeSpan::from_millis(TICK_MILLIS)) }
    }

    /// What to do at `now`. When the next tick is due it is announced, and
    /// the one after it is due one period after this one was. When it is
    /// not, the ticker asks to sleep until it is.
    pub fn poll(&mut self, now: TimeSpan) -> (action: TickAction)
        ensures
            action@ == action_at(old(self)@, now@),
            final(self)@ == due_after(old(self)@, now@),
    {
        if self.next_tick.le(&now) {
            self.next_tick = self.next_tick.saturating_add(&TimeSpan::from_millis(TICK_MILLIS));
            TickAction::Tick
        } else {
            TickAction::Sleep(self.next_tick.saturating_sub(&now))
        }
    }
}

} // verus!
