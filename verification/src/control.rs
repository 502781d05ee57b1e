//! The admission controller of a bridge: optional entry and exit
//! traffic lights, or a yield rule.

use vstd::prelude::*;
use crate::traffic_light::{light_advanced, TrafficLight};

verus! {

/// A bridge is governed either by two timed lights (`with_traffic`) or
/// by none (`without_traffic`), in which case boats pass freely exactly
/// when road traffic need not yield.
#[derive(Debug, Clone, PartialEq, Eq)]
pub struct Control {
    pub in_traffic_light: Option<TrafficLight>,
    pub out_traffic_light: Option<TrafficLight>,
    pub has_yield: bool,
    pub can_pass_boats: bool,
}

impl Control {
    /// A controller with an entry light and an exit light.
    pub fn with_traffic(interval_in: usize, interval_out: usize) -> (r: Self)
        ensures
            r.in_traffic_light == Some(
                TrafficLight { in_red: false, time_passed_ms: 0, update_interval_ms: interval_in },
            ),
            r.out_traffic_light == Some(
                TrafficLight { in_red: false, time_passed_ms: 0, update_interval_ms: interval_out },
            ),
            !r.has_yield,
            !r.can_pass_boats,
    {
        Control {
            in_traffic_light: Some(TrafficLight::new(interval_in)),
            out_traffic_light: Some(TrafficLight::new(interval_out)),
            has_yield: false,
            can_pass_boats: false,
        }
    }

    /// A controller without lights; boats pass when road traffic does
    /// not yield.
    pub fn without_traffic(has_yield: bool) -> (r: Self)
        ensures
            r.in_traffic_light is None,
            r.out_traffic_light is None,
            r.has_yield == has_yield,
            r.can_pass_boats == !has_yield,
    {
        Control {
            in_traffic_light: None,
            out_traffic_light: None,
            has_yield,
            can_pass_boats: !has_yield,
        }
    }

    /// Advances both lights by the elapsed frames.
    pub fn advance_time(&mut self, frames: usize)
        requires
            old(self).in_traffic_light matches Some(t) ==> t.time_passed_ms + frames <= usize::MAX,
            old(self).out_traffic_light matches Some(t) ==> t.time_passed_ms + frames <= usize::MAX,
        ensures
            old(self).in_traffic_light is None ==> final(self).in_traffic_light is None,
            old(self).in_traffic_light matches Some(t) ==> final(self).in_traffic_light == Some(
                light_advanced(t, frames as int),
            ),
            old(self).out_traffic_light is None ==> final(self).out_traffic_light is None,
            old(self).out_traffic_light matches Some(t) ==> final(self).out_traffic_light == Some(
                light_advanced(t, frames as int),
            ),
            final(self).has_yield == old(self).has_yield,
            final(self).can_pass_boats == old(self).can_pass_boats,
    {
        match &mut self.out_traffic_light {
            Some(out_t) => {
                out_t.advance_time(frames);
            },
            None => {},
        }
        match &mut self.in_traffic_light {
            Some(in_t) => {
                in_t.advance_time(frames);
            },
            None => {},
        }
    }
}

} // verus!
