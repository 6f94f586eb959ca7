//! The sound timer's beat: what one tick does with the requests that have
//! come in and whether the buzzer sounds until the next tick.

use crate::timers::{count_after, BaseTimer};
use vstd::prelude::*;

verus! {

/// Microseconds between two ticks of the sound timer.
pub const TICK_MICROS: u64 = 1_000 * (1_000 / 60);

/// Microseconds that a beep stops short of the next tick, so that two beeps
/// in a row do not click.
pub const GUARD_MICROS: u64 = 50;

/// Microseconds that one beep lasts.
pub const BEEP_MICROS: u64 = TICK_MICROS - GUARD_MICROS;

/// The count that the timer is set to by the requests that came in since the
/// last tick: the latest one counts, and without any the count stays.
pub open spec fn requested(count: u8, requests: Seq<u8>) -> u8 {
    if requests.len() > 0 {
        requests.last()
    } else {
        count
    }
}

/// One tick of the sound timer. The requests that came in since the last
/// tick are taken in the order in which they came, then the timer goes down
/// by one. The buzzer is to sound for [`BEEP_MICROS`] when the count is still
/// above one.
pub fn tick(timer: &mut BaseTimer, requests: &[u8]) -> (beep: bool)
    ensures
        final(timer)@ == count_after(requested(old(timer)@, requests@), 1),
        beep == (final(timer)@ > 1),
{
    let mut i: usize = 0;
    while i < requests.len()
        invariant
            i <= requests@.len(),
            timer@ == requested(old(timer)@, requests@.take(i as int)),
        decreases requests@.len() - i,
    {
        timer.set_timer(requests[i]);
        i += 1;
    }
    timer.decrement();
    timer.read() > 1
}

/// A beep is over before the next tick.
pub proof fn lemma_beep_fits_tick()
    ensures
        0 < BEEP_MICROS < TICK_MICROS,
{
}

} // verus!
