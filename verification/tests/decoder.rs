use darksky::decoder::{decode, decode_alert, decode_datablock, decode_datapoint, decode_flags, decode_value};
use darksky::models::{Icon, PrecipitationType, Severity};
use darksky::DarkskyError;

fn num(x: f64) -> serde_json::Number {
    serde_json::Number::from_f64(x).unwrap()
}

fn whole(x: u64) -> serde_json::Number {
    serde_json::Number::from(x)
}

fn value(text: &str) -> serde_json::Value {
    serde_json::from_str(text).unwrap()
}

fn expect_decode(r: Result<impl std::fmt::Debug, DarkskyError>, expected: &str, found: serde_json::Value) {
    match r {
        Err(DarkskyError::Decode(what, v)) => {
            assert_eq!(what, expected);
            assert_eq!(v, found);
        }
        other => panic!("not a decoding error: {:?}", other),
    }
}

#[test]
fn minimal_forecast_decodes() {
    let body = br#"{"latitude":37.8267,"longitude":-122.423,"timezone":"America/Los_Angeles"}"#;
    let forecast = decode(body).unwrap();
    assert_eq!(forecast.latitude, num(37.8267));
    assert_eq!(forecast.longitude, num(-122.423));
    assert_eq!(forecast.timezone, "America/Los_Angeles");
    assert!(forecast.alerts.is_empty());
    assert!(forecast.currently.is_none());
    assert!(forecast.daily.is_none());
    assert!(forecast.flags.is_none());
    assert!(forecast.hourly.is_none());
    assert!(forecast.minutely.is_none());
    assert!(forecast.offset.is_none());
}

#[test]
fn unknown_severity_is_a_decode_error() {
    let body = br#"{"latitude":1,"longitude":2,"timezone":"UTC","alerts":[
        {"expires":2,"description":"d","title":"t","uri":"u","regions":[],"time":1,"severity":"unknown-level"}]}"#;
    expect_decode(decode(body), "the name of a severity", value("\"unknown-level\""));
}

#[test]
fn body_that_is_not_json_gives_the_parser_error() {
    match decode(b"{\"latitude\": ") {
        Err(DarkskyError::Json(_)) => {}
        other => panic!("not a JSON error: {:?}", other),
    }
    match decode(b"") {
        Err(DarkskyError::Json(_)) => {}
        other => panic!("not a JSON error: {:?}", other),
    }
}

#[test]
fn full_forecast_decodes() {
    let body = br#"{
        "latitude": 19.2465, "longitude": -99.1013, "timezone": "America/Mexico_City", "offset": -6,
        "extra": {"ignored": true},
        "currently": {"time": 1450000000, "summary": "Clear", "icon": "clear-night",
                      "temperature": 53.5, "precipType": "rain", "uvIndex": 0, "windSpeed": 3.2,
                      "nearestStormDistance": 12, "unknownField": [1, 2, 3]},
        "minutely": {"summary": "Clear for the hour.", "icon": "clear-night", "data": [{"time": 1}, {"time": 2, "precipIntensity": 0}]},
        "hourly": {"data": null},
        "daily": {"icon": "rain", "data": []},
        "alerts": [{"expires": 20, "description": "Flooding", "title": "Flood Watch", "uri": "http://x",
                    "regions": ["A", "B"], "time": 10, "severity": "watch"}],
        "flags": {"sources": ["isd", "madis"], "isd-stations": ["1", "2"], "units": "us", "darksky-unavailable": null}
    }"#;
    let f = decode(body).unwrap();
    assert_eq!(f.offset, Some(serde_json::Number::from(-6i64)));
    assert_eq!(f.offset.as_ref().unwrap().as_f64(), Some(-6.0));
    let now = f.currently.unwrap();
    assert_eq!(now.time, 1450000000);
    assert_eq!(now.summary.as_deref(), Some("Clear"));
    assert_eq!(now.icon, Some(Icon::ClearNight));
    assert_eq!(now.temperature, Some(num(53.5)));
    assert_eq!(now.precip_type, Some(PrecipitationType::Rain));
    assert_eq!(now.uv_index, Some(0));
    assert_eq!(now.wind_speed, Some(num(3.2)));
    assert_eq!(now.nearest_storm_distance, Some(whole(12)));
    assert_eq!(now.humidity, None);
    assert_eq!(now.sunrise_time, None);
    let minutely = f.minutely.unwrap();
    assert_eq!(minutely.summary.as_deref(), Some("Clear for the hour."));
    assert_eq!(minutely.icon, Some(Icon::ClearNight));
    let points = minutely.data.unwrap();
    assert_eq!(points.len(), 2);
    assert_eq!(points[0].time, 1);
    assert_eq!(points[0].precip_intensity, None);
    assert_eq!(points[1].time, 2);
    assert_eq!(points[1].precip_intensity, Some(whole(0)));
    let hourly = f.hourly.unwrap();
    assert!(hourly.data.is_none());
    assert!(hourly.icon.is_none());
    let daily = f.daily.unwrap();
    assert_eq!(daily.icon, Some(Icon::Rain));
    assert_eq!(daily.data.unwrap().len(), 0);
    assert_eq!(f.alerts.len(), 1);
    let alert = &f.alerts[0];
    assert_eq!(alert.expires, 20);
    assert_eq!(alert.description, "Flooding");
    assert_eq!(alert.title, "Flood Watch");
    assert_eq!(alert.uri, "http://x");
    assert_eq!(alert.regions, vec!["A".to_string(), "B".to_string()]);
    assert_eq!(alert.time, 10);
    assert_eq!(alert.severity, Severity::Watch);
    let flags = f.flags.unwrap();
    assert_eq!(flags.sources, Some(vec!["isd".to_string(), "madis".to_string()]));
    assert_eq!(flags.isd_stations, Some(vec!["1".to_string(), "2".to_string()]));
    assert_eq!(flags.units.as_deref(), Some("us"));
    assert_eq!(flags.darksky_unavailable, None);
    assert_eq!(flags.metar_stations, None);
}

#[test]
fn zero_is_kept_apart_from_missing() {
    let point = decode_datapoint(&value(r#"{"time":0,"temperature":0,"uvIndex":0}"#)).unwrap();
    assert_eq!(point.time, 0);
    assert_eq!(point.temperature, Some(whole(0)));
    assert_eq!(point.uv_index, Some(0));
    assert_eq!(point.temperature_max, None);
    assert_eq!(point.uv_index_time, None);
}

#[test]
fn root_that_is_no_object_is_reported() {
    expect_decode(decode(b"[1,2]"), "an object", value("[1,2]"));
    expect_decode(decode(b"null"), "an object", value("null"));
    expect_decode(decode_value(&value("3")), "an object", value("3"));
}

#[test]
fn missing_required_fields_are_reported_by_name() {
    expect_decode(decode(br#"{"longitude":2,"timezone":"UTC"}"#), "a required field", value("\"latitude\""));
    expect_decode(decode(br#"{"latitude":2,"timezone":"UTC"}"#), "a required field", value("\"longitude\""));
    expect_decode(decode(br#"{"latitude":2,"longitude":3}"#), "a required field", value("\"timezone\""));
    expect_decode(decode_datapoint(&value("{}")), "a required field", value("\"time\""));
    expect_decode(
        decode_alert(&value(r#"{"expires":2,"description":"d","title":"t","regions":[],"time":1,"severity":"watch"}"#)),
        "a required field",
        value("\"uri\""),
    );
}

#[test]
fn wrong_kinds_are_reported_with_the_value_found() {
    expect_decode(decode(br#"{"latitude":"north","longitude":2,"timezone":"UTC"}"#), "a number", value("\"north\""));
    expect_decode(decode(br#"{"latitude":1,"longitude":2,"timezone":7}"#), "a string", value("7"));
    expect_decode(decode(br#"{"latitude":1,"longitude":null,"timezone":"UTC"}"#), "a number", value("null"));
    expect_decode(decode(br#"{"latitude":1,"longitude":2,"timezone":"UTC","offset":"x"}"#), "a number", value("\"x\""));
    expect_decode(decode(br#"{"latitude":1,"longitude":2,"timezone":"UTC","alerts":null}"#), "a list", value("null"));
    expect_decode(decode(br#"{"latitude":1,"longitude":2,"timezone":"UTC","currently":5}"#), "an object", value("5"));
    expect_decode(decode_datapoint(&value(r#"{"time":-1}"#)), "an unsigned integer", value("-1"));
    expect_decode(decode_datapoint(&value(r#"{"time":1.5}"#)), "an unsigned integer", value("1.5"));
    expect_decode(decode_datapoint(&value(r#"{"time":1,"icon":"sunny"}"#)), "the name of an icon", value("\"sunny\""));
    expect_decode(decode_datapoint(&value(r#"{"time":1,"icon":"Rain"}"#)), "the name of an icon", value("\"Rain\""));
    expect_decode(
        decode_datapoint(&value(r#"{"time":1,"precipType":"hail"}"#)),
        "the name of a kind of precipitation",
        value("\"hail\""),
    );
    expect_decode(decode_datapoint(&value(r#"{"time":1,"summary":false}"#)), "a string", value("false"));
    expect_decode(decode_flags(&value(r#"{"sources":["a",1]}"#)), "a list of strings", value(r#"["a",1]"#));
    expect_decode(decode_flags(&value(r#"{"units":["us"]}"#)), "a string", value(r#"["us"]"#));
    expect_decode(decode_datablock(&value(r#"{"data":{}}"#)), "a list", value("{}"));
    expect_decode(decode_datablock(&value(r#"{"data":[{"time":1},{"time":"x"}]}"#)), "an unsigned integer", value("\"x\""));
}

#[test]
fn the_first_field_that_fails_is_reported() {
    // `apparentTemperature` is checked before `time` and `windSpeed`.
    expect_decode(
        decode_datapoint(&value(r#"{"windSpeed":"fast","apparentTemperature":"warm"}"#)),
        "a number",
        value("\"warm\""),
    );
    // alerts are checked before the coordinates.
    expect_decode(decode(br#"{"alerts":3}"#), "a list", value("3"));
    // the data points of a block are checked before its icon.
    expect_decode(
        decode_datablock(&value(r#"{"icon":"x","data":[7]}"#)),
        "an object",
        value("7"),
    );
}

#[test]
fn every_icon_token_is_read() {
    let icons = [
        ("clear-day", Icon::ClearDay), ("clear-night", Icon::ClearNight), ("cloudy", Icon::Cloudy),
        ("fog", Icon::Fog), ("hail", Icon::Hail), ("partly-cloudy-day", Icon::PartlyCloudyDay),
        ("partly-cloudy-night", Icon::PartlyCloudyNight), ("rain", Icon::Rain), ("sleet", Icon::Sleet),
        ("snow", Icon::Snow), ("thunderstorm", Icon::Thunderstorm), ("tornado", Icon::Tornado),
        ("wind", Icon::Wind),
    ];
    for (token, icon) in icons {
        assert_eq!(Icon::from_name(token), Some(icon));
        assert_eq!(icon.name(), token);
    }
    assert_eq!(Icon::from_name("clear"), None);
    assert_eq!(Icon::from_name(""), None);
    for s in [Severity::Advisory, Severity::Watch, Severity::Warning] {
        assert_eq!(Severity::from_name(s.name()), Some(s));
    }
    assert_eq!(Severity::from_name("WARNING"), None);
    for p in [PrecipitationType::Rain, PrecipitationType::Sleet, PrecipitationType::Snow] {
        assert_eq!(PrecipitationType::from_name(p.name()), Some(p));
    }
}

#[test]
fn a_repeated_key_counts_once_with_its_last_value() {
    let f = decode(br#"{"latitude":1,"latitude":5,"longitude":2,"timezone":"UTC"}"#).unwrap();
    assert_eq!(f.latitude, whole(5));
}
