//! A two-phase traffic light toggled by elapsed time.

use vstd::prelude::*;

verus! {

#[derive(Debug, Clone, Copy, PartialEq, Eq, Structural)]
pub struct TrafficLight {
    pub in_red: bool,
    pub time_passed_ms: usize,
    pub update_interval_ms: usize,
}

/// A light after `time_passed` more milliseconds: the accumulator
/// grows, and once it reaches the interval it wraps and the colour
/// flips (at most once per call).
pub open spec fn light_advanced(t: TrafficLight, time_passed: int) -> TrafficLight
    recommends
        t.time_passed_ms + time_passed <= usize::MAX,
{
    let total = t.time_passed_ms + time_passed;
    if total >= t.update_interval_ms {
        TrafficLight {
            in_red: !t.in_red,
            time_passed_ms: (total - t.update_interval_ms) as usize,
            update_interval_ms: t.update_interval_ms,
        }
    } else {
        TrafficLight { time_passed_ms: total as usize, ..t }
    }
}

impl TrafficLight {
    /// A green light with a fresh accumulator.
    pub fn new(update_interval_ms: usize) -> (r: TrafficLight)
        ensures
            r == (TrafficLight { in_red: false, time_passed_ms: 0, update_interval_ms }),
    {
        TrafficLight { in_red: false, time_passed_ms: 0, update_interval_ms }
    }

    pub fn can_pass(&self) -> (r: bool)
        ensures
            r == !self.in_red,
    {
        !self.in_red
    }

    /// Accumulates elapsed time and flips the colour once the interval
    /// has elapsed.
    pub fn advance_time(&mut self, time_passed: usize)
        requires
            old(self).time_passed_ms + time_passed <= usize::MAX,
        ensures
            *final(self) == light_advanced(*old(self), time_passed as int),
    {
        self.time_passed_ms = self.time_passed_ms + time_passed;
        if self.time_passed_ms >= self.update_interval_ms {
            self.time_passed_ms = self.time_passed_ms - self.update_interval_ms;
            self.in_red = !self.in_red;
        }
    }

    pub fn force_red(&mut self)
        ensures
            *final(self) == (TrafficLight {
                in_red: true,
                time_passed_ms: 0,
                update_interval_ms: old(self).update_interval_ms,
            }),
    {
        self.in_red = true;
        self.time_passed_ms = 0;
    }

    pub fn force_green(&mut self)
        ensures
            *final(self) == (TrafficLight {
                in_red: false,
                time_passed_ms: 0,
                update_interval_ms: old(self).update_interval_ms,
            }),
    {
        self.in_red = false;
        self.time_passed_ms = 0;
    }
}

} // verus!
