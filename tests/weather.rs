use bom_buddy::descriptor::IconDescriptor;
use bom_buddy::daily::{Astronomical, DailyForecast, DailyForecastData, FireDangerCategory, Rain, RainAmount, Uv};
use bom_buddy::hourly::{HourlyForecast, HourlyForecastData, HourlyForecastRain, HourlyForecastRainAmount, HourlyForecastWind};
use bom_buddy::observation::{Gust, MaxGust, Observation, Station, Temperature, Wind};
use bom_buddy::warning::{Warning};
use bom_buddy::weather::{FetchedFeeds, Weather, WeatherOptions};
use std::collections::VecDeque;

const NOW: i64 = 1_700_000_000;

fn observation(issue_time: i64, temp: i32) -> Observation {
    Observation {
        issue_time,
        observation_time: issue_time,
        temp,
        temp_feels_like: temp - 10,
        wind: Wind { direction: Some("NW".to_string()), speed_kilometre: 11, speed_knot: 6 },
        gust: Gust { speed_kilometre: 20, speed_knot: 11 },
        max_gust: MaxGust { speed_kilometre: 30, speed_knot: 16, time: issue_time },
        max_temp: Temperature { time: issue_time, value: 251 },
        min_temp: Temperature { time: issue_time, value: 102 },
        rain_since_9am: Some(4),
        humidity: 55,
        station: Station { bom_id: "70351".to_string(), distance: 1200, name: "Canberra".to_string() },
    }
}

fn hour(time: i64, temp: i32) -> HourlyForecastData {
    HourlyForecastData {
        rain: HourlyForecastRain {
            amount: HourlyForecastRainAmount { max: Some(2), min: 1, units: "mm".to_string() },
            chance: 40,
            precipitation_amount_10_percent_chance: 0,
            precipitation_amount_25_percent_chance: 0,
            precipitation_amount_50_percent_chance: 0,
        },
        temp,
        temp_feels_like: temp - 5,
        wind: HourlyForecastWind {
            direction: "S".to_string(),
            speed_kilometre: 9,
            speed_knot: 5,
            gust_speed_kilometre: 17,
            gust_speed_knot: 9,
        },
        relative_humidity: 60,
        uv: 3,
        icon_descriptor: IconDescriptor::Sunny,
        next_three_hourly_forecast_period: time + 3 * 3600,
        time,
        is_night: false,
        next_forecast_period: time + 3600,
    }
}

fn hourly(issue_time: i64) -> HourlyForecast {
    HourlyForecast { issue_time, data: vec![hour(NOW - 7200, 180), hour(NOW - 3600, 200), hour(NOW, 210), hour(NOW + 3600, 220)] }
}

fn day(date: i64, max: Option<i32>, min: Option<i32>) -> DailyForecastData {
    DailyForecastData {
        rain: Rain {
            amount: RainAmount {
                lower_range: Some(0),
                upper_range: Some(3),
                min: Some(0),
                max: Some(3),
                units: "mm".to_string(),
            },
            chance: Some(30),
            chance_of_no_rain_category: "high".to_string(),
            precipitation_amount_25_percent_chance: 0,
            precipitation_amount_50_percent_chance: 0,
            precipitation_amount_75_percent_chance: 1,
        },
        uv: Uv { category: None, max_index: Some(7), end_time: None, start_time: None },
        astronomical: Astronomical { sunrise_time: date + 6 * 3600, sunset_time: date + 19 * 3600 },
        date,
        temp_max: max,
        temp_min: min,
        extended_text: Some("Sunny.".to_string()),
        icon_descriptor: IconDescriptor::Sunny,
        short_text: Some("Sunny".to_string()),
        surf_danger: None,
        fire_danger: None,
        fire_danger_category: FireDangerCategory { dark_mode_colour: None, default_colour: None, text: None },
        now: None,
    }
}

fn daily(issue_time: i64, next_issue_time: Option<i64>) -> DailyForecast {
    DailyForecast {
        issue_time,
        next_issue_time,
        forecast_region: "Canberra".to_string(),
        forecast_type: "metropolitan".to_string(),
        days: vec![day(NOW - 3600, Some(270), Some(120)), day(NOW + 82800, Some(290), Some(150))],
    }
}

fn warning(id: &str) -> Warning {
    Warning {
        area_id: "ACT_PW001".to_string(),
        expiry_time: "2023-11-15T00:00:00Z".to_string(),
        id: id.to_string(),
        issue_time: "2023-11-14T00:00:00Z".to_string(),
        phase: "new".to_string(),
        short_title: "Fire".to_string(),
        state: "ACT".to_string(),
        title: "Fire weather".to_string(),
        warning_type: "fire_weather_warning".to_string(),
        warning_group_type: "major".to_string(),
    }
}

/// A location whose feeds were all last due at `due`.
fn weather(due: i64, history: Vec<Observation>) -> Weather {
    Weather {
        geohash: "r3dp5hh".to_string(),
        observations: VecDeque::from(history),
        daily_forecast: daily(NOW - 7200, None),
        hourly_forecast: hourly(NOW - 7200),
        warnings: vec![warning("a")],
        next_observation_due: due,
        next_daily_due: due,
        next_hourly_due: due,
        next_warning_due: due,
        opts: WeatherOptions::default(),
    }
}

fn nothing() -> FetchedFeeds {
    FetchedFeeds { observation: None, hourly: None, daily: None, warnings: None }
}

#[test]
fn new_observation_goes_in_front() {
    let old = observation(NOW - 1200, 150);
    let mut w = weather(NOW - 1, vec![old.clone()]);
    let fetched = FetchedFeeds { observation: Some(Some(observation(NOW - 300, 160))), ..nothing() };
    let (changed, _) = w.update_if_due(NOW, fetched);
    assert!(changed);
    assert_eq!(w.observations.len(), 2);
    assert_eq!(w.observations[0].issue_time, NOW - 300);
    assert_eq!(w.observations[1].issue_time, old.issue_time);
    assert_eq!(w.observation().unwrap().temp, 160);
    // issue time + ten minutes + two minutes of delay
    assert_eq!(w.next_observation_due, NOW - 300 + 600 + 120);
}

#[test]
fn unchanged_observation_is_overdue() {
    let mut w = weather(NOW - 1, vec![observation(NOW - 1200, 150), observation(NOW - 1800, 140)]);
    let fetched = FetchedFeeds { observation: Some(Some(observation(NOW - 1200, 999))), ..nothing() };
    let (changed, _) = w.update_if_due(NOW, fetched);
    assert!(!changed);
    assert_eq!(w.observations.len(), 2);
    assert_eq!(w.observations[0].temp, 150);
    assert_eq!(w.next_observation_due, NOW + 120);
}

#[test]
fn late_observation_is_checked_again_soon() {
    let mut w = weather(NOW - 1, vec![]);
    w.update_observation(NOW, observation(NOW - 3600, 150));
    assert_eq!(w.observations.len(), 1);
    assert_eq!(w.next_observation_due, NOW + 120);
}

#[test]
fn missing_observation_waits_an_hour() {
    let mut w = weather(NOW - 1, vec![observation(NOW - 1200, 150)]);
    let (changed, _) = w.update_if_due(NOW, FetchedFeeds { observation: Some(None), ..nothing() });
    assert!(!changed);
    assert_eq!(w.observations.len(), 1);
    assert_eq!(w.next_observation_due, NOW + 3600);
}

#[test]
fn observation_history_is_capped() {
    let mut w = weather(NOW - 1, vec![observation(NOW - 1200, 150), observation(NOW - 1800, 140)]);
    w.opts.past_observation_amount = 2;
    w.update_observation(NOW, observation(NOW - 600, 170));
    assert_eq!(w.observations.len(), 2);
    assert_eq!(w.observations[0].temp, 170);
    assert_eq!(w.observations[1].temp, 150);
    w.opts.past_observation_amount = 1;
    w.update_observation(NOW, observation(NOW - 60, 180));
    assert_eq!(w.observations.len(), 1);
    assert_eq!(w.observations[0].temp, 180);
}

#[test]
fn unchanged_daily_forecast_is_overdue() {
    let mut w = weather(NOW + 10_000, vec![]);
    w.next_daily_due = NOW - 1;
    let fetched = FetchedFeeds { daily: Some(daily(NOW - 7200, None)), ..nothing() };
    let (changed, next) = w.update_if_due(NOW, fetched);
    assert!(!changed);
    assert_eq!(w.next_daily_due, NOW + 30 * 60);
    assert_eq!(next, NOW + 30 * 60);
}

#[test]
fn new_daily_forecast_follows_its_period() {
    let mut w = weather(NOW + 10_000, vec![]);
    w.update_daily(NOW, daily(NOW - 600, Some(NOW + 7200)));
    assert_eq!(w.daily_forecast.issue_time, NOW - 600);
    assert_eq!(w.next_daily_due, NOW - 600 + 3600 + 120);
    w.opts.use_daily_next_issue_time = true;
    w.update_daily(NOW, daily(NOW - 300, Some(NOW + 7200)));
    assert_eq!(w.next_daily_due, NOW + 7200 + 120);
}

#[test]
fn hourly_forecast_updates() {
    let mut w = weather(NOW + 10_000, vec![]);
    w.next_hourly_due = NOW - 1;
    let fetched = FetchedFeeds { hourly: Some(hourly(NOW - 60)), ..nothing() };
    let (changed, _) = w.update_if_due(NOW, fetched);
    assert!(changed);
    assert_eq!(w.hourly_forecast.issue_time, NOW - 60);
    assert_eq!(w.next_hourly_due, NOW - 60 + 3 * 3600 + 120);
    let mut same = hourly(NOW - 60);
    same.data.remove(0);
    w.update_hourly(NOW, same);
    assert_eq!(w.next_hourly_due, NOW + 3600);
    assert_eq!(w.hourly_forecast.data.len(), 3);
}

#[test]
fn identical_warnings_are_no_change() {
    let mut w = weather(NOW + 10_000, vec![]);
    w.next_warning_due = NOW - 1;
    let fetched = FetchedFeeds { warnings: Some(vec![warning("a")]), ..nothing() };
    let (changed, _) = w.update_if_due(NOW, fetched);
    assert!(!changed);
    assert_eq!(w.next_warning_due, NOW + 30 * 60);
    assert!(w.update_warnings(NOW + 5, vec![warning("b")]));
    assert_eq!(w.next_warning_due, NOW + 5 + 30 * 60);
}

#[test]
fn feeds_not_due_are_left_alone() {
    let mut w = weather(NOW + 100, vec![observation(NOW - 1200, 150)]);
    let fetched = FetchedFeeds {
        observation: Some(Some(observation(NOW - 60, 170))),
        hourly: Some(hourly(NOW)),
        daily: Some(daily(NOW, None)),
        warnings: Some(vec![]),
    };
    let due = w.due_feeds(NOW);
    assert!(!due.observation && !due.hourly && !due.daily && !due.warnings);
    let (changed, next) = w.update_if_due(NOW, fetched);
    assert!(!changed);
    assert_eq!(next, NOW + 100);
    assert_eq!(w.observations[0].temp, 150);
    assert_eq!(w.warnings.len(), 1);
}

#[test]
fn next_check_is_earliest_due_and_not_before_now() {
    let mut w = weather(NOW - 1, vec![observation(NOW - 1200, 150)]);
    let fetched = FetchedFeeds {
        observation: Some(Some(observation(NOW - 1200, 150))),
        hourly: Some(hourly(NOW - 7200)),
        daily: Some(daily(NOW - 7200, None)),
        warnings: Some(vec![warning("a")]),
    };
    let (changed, next) = w.update_if_due(NOW, fetched);
    assert!(!changed);
    let dues = [w.next_observation_due, w.next_hourly_due, w.next_daily_due, w.next_warning_due];
    assert_eq!(next, *dues.iter().min().unwrap());
    assert!(next >= NOW);
    assert_eq!(next, NOW + 120);
}

#[test]
fn unchecked_observations_are_skipped() {
    let mut w = weather(NOW - 1, vec![observation(NOW - 1200, 150)]);
    w.opts.check_observations = false;
    assert!(!w.due_feeds(NOW).observation);
    // a stale observation due time no longer pulls the next check into the past
    let fetched = FetchedFeeds {
        observation: None,
        hourly: Some(hourly(NOW - 7200)),
        daily: Some(daily(NOW - 7200, None)),
        warnings: Some(vec![warning("a")]),
    };
    let (_, next) = w.update_if_due(NOW, fetched);
    assert_eq!(w.next_observation_due, NOW + 3600);
    assert_eq!(next, NOW + 1800);
    assert_eq!(w.next_check(), NOW + 1800);
    // the next check counts every due time, the observation one included
    w.next_observation_due = NOW + 10;
    assert_eq!(w.next_check(), NOW + 10);
}

#[test]
fn first_fetch_sets_due_times() {
    let opts = WeatherOptions::default();
    let w = Weather::new(
        "r3dp5hh".to_string(),
        NOW,
        opts,
        daily(NOW - 600, Some(NOW + 3600)),
        hourly(NOW - 4 * 3600),
        None,
        vec![],
    );
    // the advertised next issue time is trusted only when the options say so
    assert_eq!(w.next_daily_due, NOW - 600 + 3600 + 120);
    assert_eq!(w.next_hourly_due, NOW + 3600);
    assert_eq!(w.next_observation_due, NOW + 3600);
    assert_eq!(w.next_warning_due, NOW + 1800);
    assert!(w.observation().is_none());
    let mut trusting = WeatherOptions::default();
    trusting.use_daily_next_issue_time = true;
    let t = Weather::new("r3dp5hh".to_string(), NOW, trusting, daily(NOW - 600, Some(NOW + 3600)), hourly(NOW), None, vec![]);
    assert_eq!(t.next_daily_due, NOW + 3600 + 120);
    let w = Weather::new(
        "r3dp5hh".to_string(),
        NOW,
        WeatherOptions::default(),
        daily(NOW - 600, None),
        hourly(NOW - 60),
        Some(observation(NOW - 100, 150)),
        vec![warning("a")],
    );
    assert_eq!(w.next_daily_due, NOW - 600 + 3600 + 120);
    assert_eq!(w.next_hourly_due, NOW - 60 + 3 * 3600 + 120);
    assert_eq!(w.next_observation_due, NOW - 100 + 600 + 120);
    assert_eq!(w.observations.len(), 1);
}

#[test]
fn default_options() {
    let o = WeatherOptions::default();
    assert_eq!(o.past_observation_amount, 288);
    assert_eq!(o.observation_missing_delay, 3600);
    assert_eq!(o.hourly_update_frequency, 10800);
    assert!(!o.use_daily_next_issue_time);
}
