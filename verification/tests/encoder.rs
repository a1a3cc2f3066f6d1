use darksky::decoder::{decode, decode_alert, decode_datablock, decode_datapoint, decode_flags, decode_value};
use darksky::encoder::{encode_alert, encode_datablock, encode_datapoint, encode_flags, encode_value};
use darksky::models::{Alert, Datablock, Datapoint, Flags, Forecast, Icon, PrecipitationType, Severity};

fn num(x: f64) -> serde_json::Number {
    serde_json::Number::from_f64(x).unwrap()
}

fn bare_point(time: u64) -> Datapoint {
    decode_datapoint(&serde_json::from_str(&format!("{{\"time\":{}}}", time)).unwrap()).unwrap()
}

fn rich_point() -> Datapoint {
    let mut p = bare_point(1450000000);
    p.apparent_temperature_max_time = Some(7);
    p.apparent_temperature = Some(num(-3.25));
    p.icon = Some(Icon::PartlyCloudyDay);
    p.precip_type = Some(PrecipitationType::Sleet);
    p.summary = Some("Sleet until evening.".to_string());
    p.uv_index = Some(0);
    p.wind_speed = Some(num(12.5));
    p.wind_gust_time = Some(u64::MAX);
    p
}

fn sample_forecast() -> Forecast {
    Forecast {
        alerts: vec![Alert {
            expires: 20,
            description: "Heavy rain".to_string(),
            title: "Flood Warning".to_string(),
            uri: "https://alerts.example/1".to_string(),
            regions: vec!["North".to_string(), "South".to_string()],
            time: 10,
            severity: Severity::Warning,
        }],
        currently: Some(rich_point()),
        daily: Some(Datablock {
            data: Some(vec![bare_point(1), rich_point(), bare_point(3)]),
            icon: Some(Icon::Rain),
            summary: Some("Rain all week.".to_string()),
        }),
        flags: Some(Flags {
            darksky_stations: None,
            darksky_unavailable: Some("true".to_string()),
            datapoint_stations: None,
            isd_stations: Some(vec!["a".to_string()]),
            lamp_stations: Some(vec![]),
            metar_stations: None,
            metno_license: None,
            sources: Some(vec!["isd".to_string(), "gfs".to_string()]),
            units: Some("si".to_string()),
        }),
        hourly: Some(Datablock { data: None, icon: None, summary: None }),
        latitude: num(37.8267),
        longitude: num(-122.423),
        minutely: None,
        offset: Some(serde_json::Number::from(-8i64)),
        timezone: "America/Los_Angeles".to_string(),
    }
}

#[test]
fn a_forecast_is_read_back_from_its_value() {
    let forecast = sample_forecast();
    let value = encode_value(&forecast);
    assert_eq!(decode_value(&value).unwrap(), forecast);
}

#[test]
fn a_forecast_is_read_back_from_its_text() {
    let forecast = sample_forecast();
    let text = serde_json::to_vec(&encode_value(&forecast)).unwrap();
    assert_eq!(decode(&text).unwrap(), forecast);
}

#[test]
fn a_forecast_of_nothing_but_the_required_is_read_back() {
    let forecast = Forecast {
        alerts: vec![],
        currently: None,
        daily: None,
        flags: None,
        hourly: None,
        latitude: num(0.0),
        longitude: serde_json::Number::from(180u64),
        minutely: None,
        offset: None,
        timezone: String::new(),
    };
    let value = encode_value(&forecast);
    assert_eq!(decode_value(&value).unwrap(), forecast);
}

#[test]
fn every_field_is_listed_and_none_is_null() {
    let value = encode_value(&sample_forecast());
    let object = value.as_object().unwrap();
    let names: Vec<&str> = object.keys().map(|k| k.as_str()).collect();
    assert_eq!(
        names,
        vec![
            "alerts", "currently", "daily", "flags", "hourly", "latitude", "longitude",
            "minutely", "offset", "timezone"
        ]
    );
    assert!(value["minutely"].is_null());
    assert_eq!(value["latitude"].as_f64(), Some(37.8267));
    assert_eq!(value["offset"].as_i64(), Some(-8));
    assert_eq!(value["timezone"].as_str(), Some("America/Los_Angeles"));
    assert_eq!(value["alerts"][0]["severity"].as_str(), Some("warning"));
    assert_eq!(value["alerts"][0]["regions"][1].as_str(), Some("South"));
    assert_eq!(value["alerts"][0]["expires"].as_u64(), Some(20));
    assert!(value["hourly"]["data"].is_null());
    assert_eq!(value["daily"]["data"].as_array().unwrap().len(), 3);
    assert_eq!(value["daily"]["icon"].as_str(), Some("rain"));
    assert_eq!(value["flags"]["isd-stations"][0].as_str(), Some("a"));
    assert_eq!(value["flags"]["lamp-stations"].as_array().unwrap().len(), 0);
    assert!(value["flags"]["metno-license"].is_null());
    let point = encode_datapoint(&rich_point());
    assert_eq!(point.as_object().unwrap().len(), 55);
    assert_eq!(point["time"].as_u64(), Some(1450000000));
    assert_eq!(point["apparentTemperatureMaxTime"].as_u64(), Some(7));
    assert_eq!(point["apparentTemperature"].as_f64(), Some(-3.25));
    assert_eq!(point["icon"].as_str(), Some("partly-cloudy-day"));
    assert_eq!(point["precipType"].as_str(), Some("sleet"));
    assert_eq!(point["uvIndex"].as_u64(), Some(0));
    assert_eq!(point["windGustTime"].as_u64(), Some(u64::MAX));
    assert!(point["humidity"].is_null());
}

#[test]
fn the_parts_are_read_back_too() {
    let point = rich_point();
    assert_eq!(decode_datapoint(&encode_datapoint(&point)).unwrap(), point);
    let forecast = sample_forecast();
    let alert = &forecast.alerts[0];
    assert_eq!(&decode_alert(&encode_alert(alert)).unwrap(), alert);
    let flags = forecast.flags.as_ref().unwrap();
    assert_eq!(&decode_flags(&encode_flags(flags)).unwrap(), flags);
    let block = forecast.daily.as_ref().unwrap();
    assert_eq!(&decode_datablock(&encode_datablock(block)).unwrap(), block);
}

#[test]
fn a_copy_of_a_forecast_holds_the_same() {
    let forecast = sample_forecast();
    let copy = forecast.clone();
    assert_eq!(copy, forecast);
    assert_eq!(copy.latitude.as_f64(), Some(37.8267));
    assert_eq!(encode_value(&copy), encode_value(&forecast));
}
