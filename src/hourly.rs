use vstd::prelude::*;

use crate::descriptor::IconDescriptor;
use crate::observation::Decidegrees;
use crate::time::{valid_time, Timestamp};

verus! {

#[derive(Clone, Debug)]
pub struct HourlyForecastRainAmount {
    pub max: Option<u16>,
    pub min: u16,
    pub units: String,
}

#[derive(Clone, Debug)]
pub struct HourlyForecastRain {
    pub amount: HourlyForecastRainAmount,
    pub chance: u8,
    pub precipitation_amount_10_percent_chance: u8,
    pub precipitation_amount_25_percent_chance: u8,
    pub precipitation_amount_50_percent_chance: u8,
}

#[derive(Clone, Debug)]
pub struct HourlyForecastWind {
    pub direction: String,
    pub speed_kilometre: u8,
    pub speed_knot: u8,
    pub gust_speed_kilometre: u8,
    pub gust_speed_knot: u8,
}

/// The forecast for one hour, starting at `time`.
#[derive(Clone, Debug)]
pub struct HourlyForecastData {
    pub rain: HourlyForecastRain,
    pub temp: Decidegrees,
    pub temp_feels_like: Decidegrees,
    pub wind: HourlyForecastWind,
    pub relative_humidity: u8,
    pub uv: u8,
    pub icon_descriptor: IconDescriptor,
    pub next_three_hourly_forecast_period: Timestamp,
    pub time: Timestamp,
    pub is_night: bool,
    pub next_forecast_period: Timestamp,
}

#[derive(Clone, Debug)]
pub struct HourlyForecast {
    pub issue_time: Timestamp,
    pub data: Vec<HourlyForecastData>,
}

impl HourlyForecast {
    pub open spec fn wf(&self) -> bool {
        valid_time(self.issue_time as int)
    }
}

} // verus!
