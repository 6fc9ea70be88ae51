use bom_buddy::descriptor::IconDescriptor;
use bom_buddy::table::{any_rain, daily_rain_text, hourly_rain_text, percent_text, temperature_text, upcoming_hours};
use bom_buddy::daily::{RainAmount};
use bom_buddy::hourly::{HourlyForecastData, HourlyForecastRain, HourlyForecastRainAmount, HourlyForecastWind};

fn hour(start: i64, chance: u8) -> HourlyForecastData {
    HourlyForecastData {
        rain: HourlyForecastRain {
            amount: HourlyForecastRainAmount { max: Some(5), min: 1, units: "mm".to_string() },
            chance,
            precipitation_amount_10_percent_chance: 0,
            precipitation_amount_25_percent_chance: 0,
            precipitation_amount_50_percent_chance: 0,
        },
        temp: 200,
        temp_feels_like: 190,
        wind: HourlyForecastWind { direction: "E".to_string(), speed_kilometre: 5, speed_knot: 3, gust_speed_kilometre: 9, gust_speed_knot: 5 },
        relative_humidity: 50,
        uv: 1,
        icon_descriptor: IconDescriptor::Cloudy,
        next_three_hourly_forecast_period: start + 10800,
        time: start,
        is_night: false,
        next_forecast_period: start + 3600,
    }
}

#[test]
fn upcoming_hours_skip_ended_ones() {
    let data = vec![hour(0, 0), hour(3600, 0), hour(7200, 30), hour(10800, 0)];
    assert_eq!(upcoming_hours(&data, 3600, 12), vec![1, 2, 3]);
    assert_eq!(upcoming_hours(&data, 3599, 2), vec![0, 1]);
    assert_eq!(upcoming_hours(&data, 20000, 5), Vec::<usize>::new());
    assert!(any_rain(&data, &vec![1, 2]));
    assert!(!any_rain(&data, &vec![0, 1, 3]));
}

#[test]
fn rain_and_temperature_texts() {
    let hourly = HourlyForecastRainAmount { max: Some(5), min: 1, units: "mm".to_string() };
    assert_eq!(hourly_rain_text(&hourly), "1-5mm");
    let dry = HourlyForecastRainAmount { max: None, min: 0, units: "mm".to_string() };
    assert_eq!(hourly_rain_text(&dry), "0mm");
    let daily = RainAmount { lower_range: Some(2), upper_range: Some(10), min: Some(0), max: Some(8), units: "mm".to_string() };
    assert_eq!(daily_rain_text(&daily), "2-8mm");
    let unknown = RainAmount { lower_range: None, upper_range: None, min: None, max: Some(8), units: "mm".to_string() };
    assert_eq!(daily_rain_text(&unknown), "0mm");
    assert_eq!(percent_text(40), "40%");
    assert_eq!(temperature_text(-123), "-12.3");
    assert_eq!(temperature_text(250), "25");
    assert_eq!(temperature_text(5), "0.5");
}
