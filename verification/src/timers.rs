//! The saturating byte counter behind the delay and the sound timer.

use vstd::prelude::*;

verus! {

/// Microseconds between two ticks of the delay timer: sixty ticks a second.
pub const TICK_MICROS: u64 = 1_000_000 / 60;

/// A byte counter that is set to a value and then ticks down to zero, where it stays.
pub struct BaseTimer {
    count: u8,
}

/// The value a timer holds after `ticks` decrements, having started at `start`.
pub open spec fn count_after(start: u8, ticks: nat) -> u8 {
    if ticks >= start {
        0u8
    } else {
        (start - ticks) as u8
    }
}

impl View for BaseTimer {
    type V = u8;

    closed spec fn view(&self) -> u8 {
        self.count
    }
}

impl BaseTimer {
    /// A timer at zero.
    pub fn new() -> (timer: BaseTimer)
        ensures
            timer@ == 0,
    {
        BaseTimer { count: 0 }
    }

    /// Replaces the count with `time`.
    pub fn set_timer(&mut self, time: u8)
        ensures
            final(self)@ == time,
    {
        self.count = time;
    }

    /// One tick: the count goes down by one, and stays at zero once it is there.
    pub fn decrement(&mut self)
        ensures
            final(self)@ == count_after(old(self)@, 1),
    {
        self.count = self.count.saturating_sub(1)
    }

    /// The current count.
    pub fn read(&self) -> (count: u8)
        ensures
            count == self@,
    {
        self.count
    }
}

/// Ticks accumulate: `a` decrements followed by `b` more leave what `a + b` decrements leave.
pub proof fn lemma_ticks_accumulate(start: u8, a: nat, b: nat)
    ensures
        count_after(count_after(start, a), b) == count_after(start, a + b),
{
}

/// A timer never goes below zero: from `start`, any number of ticks that is at
/// least `start` leaves zero, and one more tick still leaves zero.
pub proof fn lemma_timer_saturates(start: u8, ticks: nat)
    requires
        ticks >= start,
    ensures
        count_after(start, ticks) == 0,
        count_after(count_after(start, ticks), 1) == 0,
{
}

} // verus!
