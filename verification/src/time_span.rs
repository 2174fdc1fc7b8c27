//! A span of time with nanosecond resolution.
//!
//! A [`TimeSpan`] holds whole seconds and the nanoseconds of the started
//! second, the same two numbers as `std::time::Duration`, so the two convert
//! into each other field by field. Its view is the span as one number of
//! nanoseconds; all arithmetic is stated over that number.

use vstd::prelude::*;

verus! {

/// The longest span that can be held, in nanoseconds.
pub open spec fn span_max() -> nat {
    (u64::MAX as nat) * 1_000_000_000 + 999_999_999
}

/// `a + b`, held at [`span_max`].
pub open spec fn add_sat(a: nat, b: nat) -> nat {
    if a + b <= span_max() {
        a + b
    } else {
        span_max()
    }
}

/// `a - b`, held at zero.
pub open spec fn sub_sat(a: nat, b: nat) -> nat {
    if a >= b {
        (a - b) as nat
    } else {
        0
    }
}

/// A non-negative span of time.
#[derive(Clone, Copy, Debug, PartialEq, Eq, Hash)]
pub struct TimeSpan {
    secs: u64,
    nanos: u32,
}

impl View for TimeSpan {
    type V = nat;

    /// The span in nanoseconds.
    closed spec fn view(&self) -> nat {
        (self.secs as nat) * 1_000_000_000 + (self.nanos as nat) % 1_000_000_000
    }
}

impl TimeSpan {
    /// The nanosecond part never reaches a whole second.
    #[verifier::type_invariant]
    spec fn well_formed(self) -> bool {
        self.nanos < 1_000_000_000
    }

    fn total(&self) -> (t: u128)
        ensures
            t == self@,
            t <= span_max(),
    {
        proof {
            use_type_invariant(self);
        }
        (self.secs as u128) * 1_000_000_000u128 + (self.nanos as u128)
    }

    fn from_total(total: u128) -> (span: TimeSpan)
        requires
            total <= span_max(),
        ensures
            span@ == total,
    {
        let secs: u128 = total / 1_000_000_000u128;
        let nanos: u128 = total % 1_000_000_000u128;
        TimeSpan { secs: secs as u64, nanos: nanos as u32 }
    }

    /// The span of `secs` seconds and `nanos` nanoseconds.
    ///
    /// `nanos` may hold whole seconds; they are carried over. `None` when the
    /// sum is longer than the longest span.
    pub fn new(secs: u64, nanos: u32) -> (span: Option<TimeSpan>)
        ensures
            secs * 1_000_000_000 + nanos <= span_max() ==> span.is_some() && span.unwrap()@ == secs
                * 1_000_000_000 + nanos,
            secs * 1_000_000_000 + nanos > span_max() ==> span.is_none(),
    {
        let total: u128 = (secs as u128) * 1_000_000_000u128 + (nanos as u128);
        if total <= 18_446_744_073_709_551_615_999_999_999u128 {
            Some(TimeSpan::from_total(total))
        } else {
            None
        }
    }

    /// The empty span.
    pub fn zero() -> (span: TimeSpan)
        ensures
            span@ == 0,
    {
        TimeSpan { secs: 0, nanos: 0 }
    }

    /// The longest span.
    pub fn max_value() -> (span: TimeSpan)
        ensures
            span@ == span_max(),
    {
        TimeSpan { secs: u64::MAX, nanos: 999_999_999 }
    }

    /// The span of `secs` whole seconds.
    pub fn from_secs(secs: u64) -> (span: TimeSpan)
        ensures
            span@ == secs * 1_000_000_000,
    {
        TimeSpan { secs, nanos: 0 }
    }

    /// The span of `millis` milliseconds.
    pub fn from_millis(millis: u64) -> (span: TimeSpan)
        ensures
            span@ == millis * 1_000_000,
    {
        TimeSpan::from_total((millis as u128) * 1_000_000u128)
    }

    /// The whole seconds of the span.
    pub fn as_secs(&self) -> (secs: u64)
        ensures
            secs == self@ / 1_000_000_000,
    {
        proof {
            use_type_invariant(self);
        }
        self.secs
    }

    /// The nanoseconds of the started second.
    pub fn subsec_nanos(&self) -> (nanos: u32)
        ensures
            nanos == self@ % 1_000_000_000,
    {
        proof {
            use_type_invariant(self);
        }
        self.nanos
    }

    /// The span in nanoseconds.
    pub fn as_nanos(&self) -> (nanos: u128)
        ensures
            nanos == self@,
            self@ <= span_max(),
    {
        self.total()
    }

    /// The span as a clock shows it: whole minutes, and the whole seconds of
    /// the started minute.
    pub fn clock(&self) -> (face: (u64, u64))
        ensures
            face.0 == (self@ / 1_000_000_000) / 60,
            face.1 == (self@ / 1_000_000_000) % 60,
    {
        let secs = self.as_secs();
        (secs / 60, secs % 60)
    }

    /// Whether the span is empty.
    pub fn is_zero(&self) -> (empty: bool)
        ensures
            empty == (self@ == 0),
    {
        proof {
            use_type_invariant(self);
        }
        self.secs == 0 && self.nanos == 0
    }

    /// Whether `self` is strictly shorter than `other`.
    pub fn lt(&self, other: &TimeSpan) -> (shorter: bool)
        ensures
            shorter == (self@ < other@),
    {
        self.total() < other.total()
    }

    /// Whether `self` is at most as long as `other`.
    pub fn le(&self, other: &TimeSpan) -> (shorter: bool)
        ensures
            shorter == (self@ <= other@),
    {
        self.total() <= other.total()
    }

    /// Whether the two spans are equally long.
    pub fn same(&self, other: &TimeSpan) -> (equal: bool)
        ensures
            equal == (self@ == other@),
            equal == (*self == *other),
    {
        proof {
            use_type_invariant(self);
            use_type_invariant(other);
        }
        self.secs == other.secs && self.nanos == other.nanos
    }

    /// The sum of the two spans, `None` when it is longer than the longest
    /// span.
    pub fn checked_add(&self, other: &TimeSpan) -> (sum: Option<TimeSpan>)
        ensures
            self@ + other@ <= span_max() ==> sum.is_some() && sum.unwrap()@ == self@ + other@,
            self@ + other@ > span_max() ==> sum.is_none(),
    {
        let total: u128 = self.total() + other.total();
        if total <= 18_446_744_073_709_551_615_999_999_999u128 {
            Some(TimeSpan::from_total(total))
        } else {
            None
        }
    }

    /// The sum of the two spans, held at the longest span.
    pub fn saturating_add(&self, other: &TimeSpan) -> (sum: TimeSpan)
        ensures
            sum@ == add_sat(self@, other@),
    {
        match self.checked_add(other) {
            Some(sum) => sum,
            None => TimeSpan::max_value(),
        }
    }

    /// What is left of `self` after `other`, held at zero.
    pub fn saturating_sub(&self, other: &TimeSpan) -> (rest: TimeSpan)
        ensures
            rest@ == sub_sat(self@, other@),
    {
        let a: u128 = self.total();
        let b: u128 = other.total();
        if a >= b {
            TimeSpan::from_total(a - b)
        } else {
            TimeSpan::zero()
        }
    }
}

/// The nanoseconds of an optional span.
pub open spec fn nanos_of(span: Option<TimeSpan>) -> Option<nat> {
    match span {
        Some(s) => Some(s@),
        None => None,
    }
}

/// No span is longer than the longest span.
pub proof fn lemma_span_in_range(span: TimeSpan)
    ensures
        span@ <= span_max(),
{
}

} // verus!
