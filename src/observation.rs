use vstd::prelude::*;

use crate::time::{valid_time, Timestamp};

verus! {

/// Tenths of a degree Celsius.
pub type Decidegrees = i32;

/// Tenths of a millimetre of rain.
pub type TenthsMm = i32;

#[derive(Clone, Debug)]
pub struct Wind {
    pub direction: Option<String>,
    pub speed_kilometre: u8,
    pub speed_knot: u8,
}

#[derive(Clone, Debug)]
pub struct Gust {
    pub speed_kilometre: u8,
    pub speed_knot: u8,
}

#[derive(Clone, Debug)]
pub struct MaxGust {
    pub speed_kilometre: u8,
    pub speed_knot: u8,
    pub time: Timestamp,
}

#[derive(Clone, Debug)]
pub struct Temperature {
    pub time: Timestamp,
    pub value: Decidegrees,
}

/// The station that made an observation.
#[derive(Clone, Debug)]
pub struct Station {
    pub bom_id: String,
    /// Distance from the location, rounded to a whole number as the API gives it.
    pub distance: u32,
    pub name: String,
}

/// A measurement at one point in time.
#[derive(Clone, Debug)]
pub struct Observation {
    pub issue_time: Timestamp,
    pub observation_time: Timestamp,
    pub temp: Decidegrees,
    pub temp_feels_like: Decidegrees,
    pub wind: Wind,
    pub gust: Gust,
    pub max_gust: MaxGust,
    pub max_temp: Temperature,
    pub min_temp: Temperature,
    pub rain_since_9am: Option<TenthsMm>,
    pub humidity: u8,
    pub station: Station,
}

impl Observation {
    pub open spec fn wf(&self) -> bool {
        valid_time(self.issue_time as int)
    }
}

} // verus!
