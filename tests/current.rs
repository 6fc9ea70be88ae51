use bom_buddy::current::{current_period, CurrentWeather, MISSING_TEMP};
use bom_buddy::descriptor::IconDescriptor;
use bom_buddy::template::{FormatError, FstringKey};
use bom_buddy::daily::{Astronomical, DailyForecast, DailyForecastData, FireDangerCategory, Rain, RainAmount, Uv};
use bom_buddy::hourly::{HourlyForecast, HourlyForecastData, HourlyForecastRain, HourlyForecastRainAmount, HourlyForecastWind};
use bom_buddy::observation::{Gust, MaxGust, Observation, Station, Temperature, Wind};
use bom_buddy::weather::{Weather, WeatherOptions};
use std::collections::VecDeque;

const NOW: i64 = 1_700_000_000;

fn sample() -> CurrentWeather {
    CurrentWeather {
        temp: 234,
        temp_feels_like: 215,
        max_temp: 270,
        next_temp: 270,
        later_temp: -5,
        next_label: "Max".to_string(),
        later_label: "Overnight min".to_string(),
        overnight_min: -5,
        tomorrow_max: MISSING_TEMP,
        rain_since_9am: None,
        today_rain_chance: 30,
        today_rain_min: 0,
        today_rain_max: 3,
        hourly_rain_chance: 5,
        hourly_rain_min: 0,
        hourly_rain_max: 0,
        humidity: Some(55),
        relative_humidity: 60,
        uv: 7,
        icon: "☀️".to_string(),
        short_text: Some("Sunny".to_string()),
        extended_text: None,
        icon_descriptor: IconDescriptor::Sunny,
        is_night: false,
        wind_speed: 11,
        wind_direction: "NW".to_string(),
        gust: 20,
    }
}

#[test]
fn template_with_unknown_key_names_it() {
    match sample().process_fstring("{icon} {temp} ({bogus})") {
        Err(FormatError::InvalidKey(k)) => assert_eq!(k, "bogus"),
        other => panic!("unexpected {:?}", other),
    }
    let e = sample().process_fstring("{icon} {temp} ({bogus})").unwrap_err();
    assert_eq!(e.message(), "bogus is not a valid key");
}

#[test]
fn template_fills_in_values() {
    let w = sample();
    assert_eq!(w.process_fstring("{icon} {temp} ({next_temp})").unwrap(), "☀️ 23.4 (27)");
    assert_eq!(
        w.process_fstring("{next_label} {next_temp}, {later_label} {later_temp}").unwrap(),
        "Max 27, Overnight min -0.5"
    );
    assert_eq!(w.process_fstring("rain {rain_since_9am}mm").unwrap(), "rain ??mm");
    assert_eq!(w.process_fstring("{tomorrow_max}").unwrap(), "-9999");
    assert_eq!(w.process_fstring("{short_text}|{extended_text}|").unwrap(), "Sunny||");
    assert_eq!(w.process_fstring("{wind_speed}km/h {wind_direction} {wind_gust}").unwrap(), "11km/h NW 20");
    assert_eq!(w.process_fstring("{today_rain_chance}% {hourly_rain_max}").unwrap(), "30% 0");
    assert_eq!(w.process_fstring("no keys").unwrap(), "no keys");
    assert_eq!(w.process_fstring("").unwrap(), "");
    let mut wet = sample();
    wet.rain_since_9am = Some(12);
    assert_eq!(wet.process_fstring("{rain_since_9am}").unwrap(), "1.2");
}

#[test]
fn template_without_closing_brace_fails() {
    let w = sample();
    match w.process_fstring("{temp} {icon") {
        Err(FormatError::InvalidFormatString(f)) => assert_eq!(f, "{temp} {icon"),
        other => panic!("unexpected {:?}", other),
    }
    // a `}` before the first `{` is ordinary text
    assert_eq!(w.process_fstring("a}b{temp}").unwrap(), "a}b23.4");
    assert_eq!(w.process_fstring("}{icon}}").unwrap(), "}☀️}");
    let e = w.process_fstring("{temp").unwrap_err();
    assert_eq!(e.message(), "{temp is not a valid format string");
}

#[test]
fn keys_are_listed_by_name() {
    let names: Vec<&str> = FstringKey::all().iter().map(|k| k.name()).collect();
    assert_eq!(names.len(), 22);
    assert_eq!(names[0], "temp");
    assert!(names.contains(&"rain_since_9am"));
    assert!(names.contains(&"wind_gust"));
}

#[test]
fn icons_and_descriptions() {
    assert_eq!(IconDescriptor::Sunny.get_icon_emoji(true), "🌙");
    assert_eq!(IconDescriptor::Sunny.get_icon_emoji(false), "☀️");
    assert_eq!(IconDescriptor::Storm.get_icon_emoji(false), "⛈️");
    assert_eq!(IconDescriptor::MostlySunny.get_description(true), "Mostly Clear");
    assert_eq!(IconDescriptor::MostlySunny.get_description(false), "Mostly Sunny");
    assert_eq!(IconDescriptor::HeavyShower.get_description(true), "Heavy Shower");
}

fn hour(time: i64, temp: i32, is_night: bool) -> HourlyForecastData {
    HourlyForecastData {
        rain: HourlyForecastRain {
            amount: HourlyForecastRainAmount { max: None, min: 0, units: "mm".to_string() },
            chance: 10,
            precipitation_amount_10_percent_chance: 0,
            precipitation_amount_25_percent_chance: 0,
            precipitation_amount_50_percent_chance: 0,
        },
        temp,
        temp_feels_like: temp - 5,
        wind: HourlyForecastWind {
            direction: "S".to_string(),
            speed_kilometre: 9,
            speed_knot: 5,
            gust_speed_kilometre: 17,
            gust_speed_knot: 9,
        },
        relative_humidity: 60,
        uv: 3,
        icon_descriptor: IconDescriptor::Sunny,
        next_three_hourly_forecast_period: time + 3 * 3600,
        time,
        is_night,
        next_forecast_period: time + 3600,
    }
}

fn day(max: Option<i32>, min: Option<i32>) -> DailyForecastData {
    DailyForecastData {
        rain: Rain {
            amount: RainAmount { lower_range: None, upper_range: None, min: None, max: Some(4), units: "mm".to_string() },
            chance: None,
            chance_of_no_rain_category: "high".to_string(),
            precipitation_amount_25_percent_chance: 0,
            precipitation_amount_50_percent_chance: 0,
            precipitation_amount_75_percent_chance: 0,
        },
        uv: Uv { category: None, max_index: None, end_time: None, start_time: None },
        astronomical: Astronomical { sunrise_time: 0, sunset_time: 0 },
        date: NOW,
        temp_max: max,
        temp_min: min,
        extended_text: Some("Fine.".to_string()),
        icon_descriptor: IconDescriptor::Sunny,
        short_text: None,
        surf_danger: None,
        fire_danger: None,
        fire_danger_category: FireDangerCategory { dark_mode_colour: None, default_colour: None, text: None },
        now: None,
    }
}

fn weather(observations: Vec<Observation>) -> Weather {
    Weather {
        geohash: "r3dp5hh".to_string(),
        observations: VecDeque::from(observations),
        daily_forecast: DailyForecast {
            issue_time: NOW,
            next_issue_time: None,
            forecast_region: String::new(),
            forecast_type: String::new(),
            days: vec![day(Some(270), Some(100)), day(None, Some(120))],
        },
        hourly_forecast: HourlyForecast {
            issue_time: NOW,
            data: vec![hour(NOW - 3600, 180, false), hour(NOW - 60, 200, true), hour(NOW + 3540, 220, true)],
        },
        warnings: vec![],
        next_observation_due: NOW,
        next_daily_due: NOW,
        next_hourly_due: NOW,
        next_warning_due: NOW,
        opts: WeatherOptions::default(),
    }
}

#[test]
fn current_from_forecast_only() {
    let w = weather(vec![]);
    let c = w.current(NOW, 20 * 3600).unwrap();
    assert_eq!(c.temp, 200);
    assert_eq!(c.max_temp, 270);
    assert_eq!(c.next_label, "Overnight min");
    assert_eq!(c.next_temp, 120);
    assert_eq!(c.later_label, "Tomorrow max");
    assert_eq!(c.later_temp, MISSING_TEMP);
    assert_eq!(c.icon, "🌙");
    assert_eq!(c.wind_direction, "S");
    assert_eq!(c.gust, 17);
    assert_eq!(c.today_rain_chance, 0);
    assert_eq!(c.today_rain_max, 4);
    assert_eq!(c.hourly_rain_max, 0);
    assert_eq!(c.humidity, None);
}

#[test]
fn current_with_observation_in_daytime() {
    let obs = Observation {
        issue_time: NOW - 600,
        observation_time: NOW - 600,
        temp: 215,
        temp_feels_like: 200,
        wind: Wind { direction: None, speed_kilometre: 15, speed_knot: 8 },
        gust: Gust { speed_kilometre: 25, speed_knot: 13 },
        max_gust: MaxGust { speed_kilometre: 30, speed_knot: 16, time: NOW },
        max_temp: Temperature { time: NOW, value: 290 },
        min_temp: Temperature { time: NOW, value: 90 },
        rain_since_9am: Some(0),
        humidity: 40,
        station: Station { bom_id: "1".to_string(), distance: 0, name: "X".to_string() },
    };
    let w = weather(vec![obs]);
    let c = w.current(NOW, 12 * 3600).unwrap();
    assert_eq!(c.temp, 215);
    assert_eq!(c.max_temp, 290);
    assert_eq!(c.next_label, "Max");
    assert_eq!(c.next_temp, 290);
    assert_eq!(c.later_label, "Overnight min");
    assert_eq!(c.later_temp, 120);
    assert_eq!(c.wind_direction, "S");
    assert_eq!(c.wind_speed, 15);
    assert_eq!(c.humidity, Some(40));
    assert_eq!(c.rain_since_9am, Some(0));
    // exactly six o'clock is not yet daytime
    assert_eq!(w.current(NOW, 6 * 3600).unwrap().next_label, "Overnight min");
}

#[test]
fn current_needs_a_started_hour_and_two_days() {
    let w = weather(vec![]);
    assert!(w.current(NOW - 7200, 0).is_none());
    let mut short = weather(vec![]);
    short.daily_forecast.days.truncate(1);
    assert!(short.current(NOW, 0).is_none());
    assert_eq!(current_period(&w.hourly_forecast.data, NOW), Some(1));
    assert_eq!(current_period(&w.hourly_forecast.data, NOW + 3540), Some(2));
    assert_eq!(current_period(&w.hourly_forecast.data, NOW - 3601), None);
}
