use vstd::prelude::*;

use crate::descriptor::IconDescriptor;
use crate::observation::Decidegrees;
use crate::time::{valid_time, Timestamp};

verus! {

#[derive(Clone, Debug)]
pub struct RainAmount {
    pub lower_range: Option<u16>,
    pub upper_range: Option<u16>,
    pub min: Option<u16>,
    pub max: Option<u16>,
    pub units: String,
}

#[derive(Clone, Debug)]
pub struct Rain {
    pub amount: RainAmount,
    pub chance: Option<u8>,
    pub chance_of_no_rain_category: String,
    pub precipitation_amount_25_percent_chance: u8,
    pub precipitation_amount_50_percent_chance: u8,
    pub precipitation_amount_75_percent_chance: u8,
}

#[derive(Clone, Debug)]
pub struct Uv {
    pub category: Option<String>,
    pub max_index: Option<u8>,
    pub end_time: Option<Timestamp>,
    pub start_time: Option<Timestamp>,
}

#[derive(Clone, Debug)]
pub struct Astronomical {
    pub sunrise_time: Timestamp,
    pub sunset_time: Timestamp,
}

#[derive(Clone, Debug)]
pub struct FireDangerCategory {
    pub dark_mode_colour: Option<String>,
    pub default_colour: Option<String>,
    pub text: Option<String>,
}

/// The bureau's own summary of the next temperatures.
#[derive(Clone, Debug)]
pub struct Now {
    pub is_night: bool,
    pub now_label: String,
    pub later_label: String,
    pub temp_now: Decidegrees,
    pub temp_later: Decidegrees,
}

/// The forecast for one day.
#[derive(Clone, Debug)]
pub struct DailyForecastData {
    pub rain: Rain,
    pub uv: Uv,
    pub astronomical: Astronomical,
    pub date: Timestamp,
    pub temp_max: Option<Decidegrees>,
    pub temp_min: Option<Decidegrees>,
    pub extended_text: Option<String>,
    pub icon_descriptor: IconDescriptor,
    pub short_text: Option<String>,
    pub surf_danger: Option<String>,
    pub fire_danger: Option<String>,
    pub fire_danger_category: FireDangerCategory,
    pub now: Option<Now>,
}

#[derive(Clone, Debug)]
pub struct DailyForecast {
    pub issue_time: Timestamp,
    pub next_issue_time: Option<Timestamp>,
    pub forecast_region: String,
    pub forecast_type: String,
    pub days: Vec<DailyForecastData>,
}

impl DailyForecast {
    pub open spec fn wf(&self) -> bool {
        &&& valid_time(self.issue_time as int)
        &&& self.next_issue_time matches Some(t) ==> valid_time(t as int)
    }
}

} // verus!
