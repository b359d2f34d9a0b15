//! The machine timer, which counts microseconds, and deadlines on it.

use vstd::prelude::*;
use crate::bytes::{join, spec_join};

verus! {

/// A reading of the 64-bit timer through 32-bit accesses: the high half is
/// read before and after the low half. The reading is good if the high half
/// did not change in between; otherwise it has to be taken again.
pub fn time_u64(high: u32, low: u32, high_again: u32) -> (r: Option<u64>)
    ensures
        r == if high == high_again {
            Some(spec_join(high, low))
        } else {
            None
        },
{
    if high == high_again {
        Some(join(high, low))
    } else {
        None
    }
}

/// The time, in microseconds since reset, that a timer reading stands for.
pub fn time(ticks: u64) -> (r: u64)
    ensures
        r == ticks,
{
    ticks
}

/// A deadline, in microseconds since reset.
#[derive(Clone, Copy, Debug, PartialEq, Eq, Structural)]
pub struct Timer(pub u64);

impl Timer {
    /// The point in time `duration` microseconds after `now`. A deadline past
    /// the range of the timer is never reached.
    pub open spec fn spec_deadline(now: u64, duration: u64) -> u64 {
        if now + duration > u64::MAX {
            u64::MAX
        } else {
            (now + duration) as u64
        }
    }

    pub fn new(now: u64, duration: u64) -> (r: Self)
        ensures
            r.0 == Self::spec_deadline(now, duration),
    {
        Timer(now.saturating_add(duration))
    }

    /// Whether the deadline lies before `now`.
    pub fn fired(&self, now: u64) -> (r: bool)
        ensures
            r == (self.0 < now),
    {
        self.0 < now
    }
}

/// Whether a sleep of `duration` microseconds that began at `start` is over
/// at `now`: the caller reads the timer until it is.
pub fn sleep(start: u64, duration: u64, now: u64) -> (r: bool)
    ensures
        r == (start + duration < now),
{
    Timer::new(start, duration).fired(now)
}

/// A timer set for `duration` at time `start` has fired at time `now` exactly
/// when more than `duration` has passed since.
pub proof fn lemma_timer_fires(start: u64, duration: u64, now: u64)
    ensures
        (Timer::spec_deadline(start, duration) < now) <==> (start + duration < now),
{
}

/// Offset of the low half of the timer in the core-local interruptor.
pub const TIME_LOW: u64 = 0xBFF8;

/// Offset of the high half of the timer in the core-local interruptor.
pub const TIME_HIGH: u64 = 0xBFFC;

/// Offset of the timer-compare register of `hart` in the core-local
/// interruptor: eight bytes for each hart from 0x4000 on.
pub fn timer_compare_offset(hart: u64) -> (r: u64)
    requires
        hart < 0x1000,
    ensures
        r == 0x4000 + hart * 8,
{
    0x4000 + hart * 8
}

} // verus!
