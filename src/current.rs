use vstd::prelude::*;

use crate::descriptor::IconDescriptor;
use crate::text::{decimal, digit_char, push_char, push_decimal, string_of};
use crate::time::{Timestamp, HOUR};
use crate::daily::DailyForecastData;
use crate::hourly::HourlyForecastData;
use crate::observation::{Decidegrees, TenthsMm};
use crate::weather::Weather;

verus! {

/// The temperature shown when a forecast has none.
pub const MISSING_TEMP: Decidegrees = -99990;

/// The conditions at one instant, flattened for display.
#[derive(Clone, Debug)]
pub struct CurrentWeather {
    pub temp: Decidegrees,
    pub temp_feels_like: Decidegrees,
    pub max_temp: Decidegrees,
    pub next_temp: Decidegrees,
    pub later_temp: Decidegrees,
    pub next_label: String,
    pub later_label: String,
    pub overnight_min: Decidegrees,
    pub tomorrow_max: Decidegrees,
    pub rain_since_9am: Option<TenthsMm>,
    pub today_rain_chance: u8,
    pub today_rain_min: u16,
    pub today_rain_max: u16,
    pub hourly_rain_chance: u8,
    pub hourly_rain_min: u16,
    pub hourly_rain_max: u16,
    pub humidity: Option<u8>,
    pub relative_humidity: u8,
    pub uv: u8,
    pub icon: String,
    pub short_text: Option<String>,
    pub extended_text: Option<String>,
    pub icon_descriptor: IconDescriptor,
    pub is_night: bool,
    pub wind_speed: u8,
    pub wind_direction: String,
    pub gust: u8,
}

/// Whether `i` is the hour in force at `now`: the latest start not after `now`, the
/// first of equal starts.
pub open spec fn is_current_period(data: Seq<HourlyForecastData>, now: int, i: int) -> bool {
    &&& 0 <= i < data.len()
    &&& data[i].time <= now
    &&& forall|j: int| 0 <= j < data.len() && data[j].time <= now ==> data[j].time <= data[i].time
    &&& forall|j: int| 0 <= j < i && data[j].time <= now ==> data[j].time < data[i].time
}

pub open spec fn has_started_period(data: Seq<HourlyForecastData>, now: int) -> bool {
    exists|j: int| 0 <= j < data.len() && data[j].time <= now
}

/// Whether the time of day (seconds since local midnight) lies strictly between 06:00 and
/// 18:00, when the next milestone is the day's maximum.
pub open spec fn daytime(local_time: int) -> bool {
    6 * HOUR < local_time < 18 * HOUR
}

pub open spec fn temp_or_missing(t: Option<Decidegrees>) -> Decidegrees {
    match t {
        Some(v) => v,
        None => MISSING_TEMP,
    }
}

pub open spec fn text_or_empty(t: Option<String>) -> Seq<char> {
    match t {
        Some(s) => s@,
        None => Seq::empty(),
    }
}

/// The temperature in tenths of a degree, written as a decimal with one digit after the
/// point when that digit is not zero.
pub open spec fn tenths_text(t: int) -> Seq<char> {
    let a = if t < 0 {
        -t
    } else {
        t
    };
    let sign = if t < 0 {
        seq!['-']
    } else {
        Seq::empty()
    };
    let fraction = if a % 10 != 0 {
        seq!['.', digit_char(a % 10)]
    } else {
        Seq::empty()
    };
    sign + decimal((a / 10) as nat) + fraction
}

impl Weather {
    /// The conditions at `now`, with `local_time` the seconds since midnight where the user
    /// is. `None` when no forecast hour has started yet or fewer than two days are forecast.
    pub fn current(&self, now: Timestamp, local_time: u32) -> (r: Option<CurrentWeather>)
        ensures
            r is Some <==> has_started_period(self.hourly_forecast.data@, now as int)
                && self.daily_forecast.days@.len() >= 2,
            r matches Some(c) ==> current_fields(*self, now as int, local_time as int, c),
    {
        let idx = current_period(&self.hourly_forecast.data, now);
        let i = match idx {
            Some(i) => i,
            None => return None,
        };
        if self.daily_forecast.days.len() < 2 {
            return None;
        }
        let hourly = &self.hourly_forecast.data[i];
        let today = &self.daily_forecast.days[0];
        let tomorrow = &self.daily_forecast.days[1];
        let today_max = or_missing(today.temp_max);
        let overnight_min = or_missing(tomorrow.temp_min);
        let tomorrow_max = or_missing(tomorrow.temp_max);
        let observation = self.observation();
        let (temp, temp_feels_like, max_temp, wind_speed, wind_direction, gust) = match observation {
            Some(obs) => {
                let direction = match &obs.wind.direction {
                    Some(d) => d.clone(),
                    None => hourly.wind.direction.clone(),
                };
                let max = if obs.max_temp.value >= today_max {
                    obs.max_temp.value
                } else {
                    today_max
                };
                (
                    obs.temp,
                    obs.temp_feels_like,
                    max,
                    obs.wind.speed_kilometre,
                    direction,
                    obs.gust.speed_kilometre,
                )
            },
            None => (
                hourly.temp,
                hourly.temp_feels_like,
                today_max,
                hourly.wind.speed_kilometre,
                hourly.wind.direction.clone(),
                hourly.wind.gust_speed_kilometre,
            ),
        };
        let next_is_max = 6 * 3600 < local_time && local_time < 18 * 3600;
        let (next_temp, next_label, later_temp, later_label) = if next_is_max {
            (max_temp, string_of("Max"), overnight_min, string_of("Overnight min"))
        } else {
            (overnight_min, string_of("Overnight min"), tomorrow_max, string_of("Tomorrow max"))
        };
        let (rain_since_9am, humidity) = match observation {
            Some(obs) => (obs.rain_since_9am, Some(obs.humidity)),
            None => (None, None),
        };
        Some(
            CurrentWeather {
                temp,
                temp_feels_like,
                max_temp,
                next_temp,
                next_label,
                later_temp,
                later_label,
                overnight_min,
                tomorrow_max,
                rain_since_9am,
                extended_text: clone_text(&today.extended_text),
                short_text: clone_text(&today.short_text),
                humidity,
                hourly_rain_chance: hourly.rain.chance,
                hourly_rain_min: hourly.rain.amount.min,
                hourly_rain_max: or_zero(hourly.rain.amount.max),
                today_rain_chance: match today.rain.chance {
                    Some(c) => c,
                    None => 0,
                },
                today_rain_min: or_zero(today.rain.amount.min),
                today_rain_max: or_zero(today.rain.amount.max),
                wind_speed,
                wind_direction,
                gust,
                relative_humidity: hourly.relative_humidity,
                uv: hourly.uv,
                icon: string_of(hourly.icon_descriptor.get_icon_emoji(hourly.is_night)),
                icon_descriptor: hourly.icon_descriptor,
                is_night: hourly.is_night,
            },
        )
    }
}

/// What `Weather::current` reports, field by field.
pub open spec fn current_fields(w: Weather, now: int, local_time: int, c: CurrentWeather) -> bool {
    exists|i: int|
        #![trigger w.hourly_forecast.data@[i]]
        is_current_period(w.hourly_forecast.data@, now, i) && current_fields_at(
            w,
            w.hourly_forecast.data@[i],
            local_time,
            c,
        )
}

/// What `Weather::current` reports when `hourly` is the hour in force.
pub open spec fn current_fields_at(
    w: Weather,
    hourly: HourlyForecastData,
    local_time: int,
    c: CurrentWeather,
) -> bool {
    let today: DailyForecastData = w.daily_forecast.days@[0];
    let tomorrow: DailyForecastData = w.daily_forecast.days@[1];
    let today_max = temp_or_missing(today.temp_max);
    let overnight_min = temp_or_missing(tomorrow.temp_min);
    let tomorrow_max = temp_or_missing(tomorrow.temp_max);
    let has_obs = w.observations@.len() > 0;
    let obs = w.observations@[0];
    &&& c.overnight_min == overnight_min
    &&& c.tomorrow_max == tomorrow_max
    &&& if has_obs {
        &&& c.temp == obs.temp
        &&& c.temp_feels_like == obs.temp_feels_like
        &&& c.max_temp == if obs.max_temp.value >= today_max {
            obs.max_temp.value
        } else {
            today_max
        }
        &&& c.wind_speed == obs.wind.speed_kilometre
        &&& c.wind_direction@ == match obs.wind.direction {
            Some(d) => d@,
            None => hourly.wind.direction@,
        }
        &&& c.gust == obs.gust.speed_kilometre
        &&& c.rain_since_9am == obs.rain_since_9am
        &&& c.humidity == Some(obs.humidity)
    } else {
        &&& c.temp == hourly.temp
        &&& c.temp_feels_like == hourly.temp_feels_like
        &&& c.max_temp == today_max
        &&& c.wind_speed == hourly.wind.speed_kilometre
        &&& c.wind_direction@ == hourly.wind.direction@
        &&& c.gust == hourly.wind.gust_speed_kilometre
        &&& c.rain_since_9am is None
        &&& c.humidity is None
    }
    &&& if daytime(local_time) {
        &&& c.next_temp == c.max_temp
        &&& c.next_label@ == "Max"@
        &&& c.later_temp == overnight_min
        &&& c.later_label@ == "Overnight min"@
    } else {
        &&& c.next_temp == overnight_min
        &&& c.next_label@ == "Overnight min"@
        &&& c.later_temp == tomorrow_max
        &&& c.later_label@ == "Tomorrow max"@
    }
    &&& c.extended_text == today.extended_text
    &&& c.short_text == today.short_text
    &&& c.hourly_rain_chance == hourly.rain.chance
    &&& c.hourly_rain_min == hourly.rain.amount.min
    &&& c.hourly_rain_max == match hourly.rain.amount.max {
        Some(m) => m,
        None => 0,
    }
    &&& c.today_rain_chance == match today.rain.chance {
        Some(m) => m,
        None => 0,
    }
    &&& c.today_rain_min == match today.rain.amount.min {
        Some(m) => m,
        None => 0,
    }
    &&& c.today_rain_max == match today.rain.amount.max {
        Some(m) => m,
        None => 0,
    }
    &&& c.relative_humidity == hourly.relative_humidity
    &&& c.uv == hourly.uv
    &&& c.icon@ == hourly.icon_descriptor.spec_icon_emoji(hourly.is_night)
    &&& c.icon_descriptor == hourly.icon_descriptor
    &&& c.is_night == hourly.is_night
}

/// The hour in force at `now`, if any hour has started.
pub fn current_period(data: &Vec<HourlyForecastData>, now: Timestamp) -> (r: Option<usize>)
    ensures
        r is Some <==> has_started_period(data@, now as int),
        r matches Some(i) ==> is_current_period(data@, now as int, i as int),
{
    let mut best: Option<usize> = None;
    let mut i: usize = 0;
    while i < data.len()
        invariant
            i <= data@.len(),
            best is None ==> forall|j: int| 0 <= j < i ==> data@[j].time > now,
            best matches Some(b) ==> {
                &&& b < i
                &&& data@[b as int].time <= now
                &&& forall|j: int| 0 <= j < i && data@[j].time <= now ==> data@[j].time <= data@[b as int].time
                &&& forall|j: int| 0 <= j < b && data@[j].time <= now ==> data@[j].time < data@[b as int].time
            },
        decreases data@.len() - i,
    {
        let t = data[i].time;
        if t <= now {
            match best {
                None => {
                    best = Some(i);
                },
                Some(b) => {
                    if t > data[b].time {
                        best = Some(i);
                    }
                },
            }
        }
        i = i + 1;
    }
    proof {
        if best is None {
            if has_started_period(data@, now as int) {
                let j = choose|j: int| 0 <= j < data@.len() && data@[j].time <= now;
                assert(data@[j].time > now);
            }
        }
    }
    best
}

fn or_missing(t: Option<Decidegrees>) -> (r: Decidegrees)
    ensures
        r == temp_or_missing(t),
{
    match t {
        Some(v) => v,
        None => MISSING_TEMP,
    }
}

fn or_zero(t: Option<u16>) -> (r: u16)
    ensures
        r == match t {
            Some(v) => v,
            None => 0u16,
        },
{
    match t {
        Some(v) => v,
        None => 0,
    }
}

fn clone_text(t: &Option<String>) -> (r: Option<String>)
    ensures
        r == *t,
{
    match t {
        Some(s) => Some(s.clone()),
        None => None,
    }
}

/// Appends a temperature given in tenths of a degree.
pub fn push_tenths(s: &mut String, t: i32)
    ensures
        final(s)@ == old(s)@ + tenths_text(t as int),
{
    let a: u64 = if t < 0 {
        (-(t as i64)) as u64
    } else {
        t as u64
    };
    let ghost start = s@;
    if t < 0 {
        push_char(s, '-');
    }
    push_decimal(s, a / 10, 0);
    let f = a % 10;
    if f != 0 {
        push_char(s, '.');
        let c = ((f as u8) + 48u8) as char;
        assert(c == digit_char(f as int));
        push_char(s, c);
    }
    assert(s@ =~= start + tenths_text(t as int));
}

} // verus!
