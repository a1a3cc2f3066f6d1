//! The response decoder: from the bytes of a response body to a forecast.
//!
//! The body is parsed as JSON, and the value is then read against the shape
//! of a forecast. A value that fits gives the forecast that holds what the
//! value reports; a value that does not gives an error that says what was
//! expected and carries the value found in its place.

use crate::error::DarkskyError;
use crate::json::{
    as_items, as_number, as_text, as_unsigned, duplicate, get, is_null, is_object, items_of,
    json_of, jsons_of, numeral_of, parse, parsed, text_of, text_value, Json,
};
use crate::models::{
    Alert, Datablock, Datapoint, Flags, Forecast, Icon, PrecipitationType, Severity,
};
use crate::shape::{
    alert_agrees, alert_failure, alert_rules, alerts_agree, alerts_failure, alerts_part_agrees,
    alerts_part_failure, all_texts, datablock_agrees, datablock_failure, datablock_part_agrees,
    datablock_part_failure, datablock_rules, datapoint_agrees, datapoint_failure,
    datapoint_part_agrees, datapoint_part_failure, datapoint_rules, expectation, field_icon,
    field_number, field_precipitation, field_severity, field_text, field_texts, field_unsigned,
    first_failure, fits, flags_agrees, flags_failure, flags_part_agrees, flags_part_failure,
    flags_rules, forecast_agrees, forecast_failure, icon_of, lemma_first_some_found,
    lemma_first_some_none, lemma_rule_holds, object_failure, opt_numeral, opt_text, opt_texts,
    outcome, points_agree, points_failure, precipitation_of, reports, rule_failure, rule_failures,
    severity_of, texts, texts_of, Kind, Mismatch, Rule,
};
use vstd::prelude::*;

verus! {

/// The decoding error for `found` where `expected` was asked for.
fn mismatch(expected: &'static str, found: &serde_json::Value) -> (e: DarkskyError)
    ensures
        reports(e, Mismatch { expected: expected@, found: json_of(*found) }),
{
    DarkskyError::Decode(expected, duplicate(found))
}

/// The words for a value of the kind `kind`.
fn describe(kind: Kind) -> (r: &'static str)
    ensures
        r@ == expectation(kind),
{
    match kind {
        Kind::Unsigned => "an unsigned integer",
        Kind::Number => "a number",
        Kind::Text => "a string",
        Kind::TextList => "a list of strings",
        Kind::Icon => "the name of an icon",
        Kind::Precipitation => "the name of a kind of precipitation",
        Kind::Severity => "the name of a severity",
    }
}

/// `value` as a list of texts.
fn as_texts(value: &serde_json::Value) -> (r: Option<Vec<String>>)
    ensures
        opt_texts(r) == texts_of(json_of(*value)),
{
    match as_items(value) {
        None => None,
        Some(items) => {
            let ghost model = items_of(json_of(*value))->Some_0;
            let mut list: Vec<String> = Vec::new();
            let mut i: usize = 0;
            while i < items.len()
                invariant
                    i <= items@.len(),
                    items_of(json_of(*value)) == Some(model),
                    model.len() == items@.len(),
                    model == jsons_of(items@),
                    list@.len() == i,
                    forall|k: int| 0 <= k < i ==> text_of(#[trigger] model[k]) == Some(list@[k]@),
                decreases items@.len() - i,
            {
                match as_text(&items[i]) {
                    Some(t) => {
                        list.push(t.to_owned());
                    },
                    None => {
                        assert(text_of(model[i as int]) is None);
                        return None;
                    },
                }
                i += 1;
            }
            Some(list)
        },
    }
}

/// `value` as an icon.
fn as_icon(value: &serde_json::Value) -> (r: Option<Icon>)
    ensures
        r == icon_of(json_of(*value)),
{
    match as_text(value) {
        Some(token) => Icon::from_name(token),
        None => None,
    }
}

/// `value` as a kind of precipitation.
fn as_precipitation(value: &serde_json::Value) -> (r: Option<PrecipitationType>)
    ensures
        r == precipitation_of(json_of(*value)),
{
    match as_text(value) {
        Some(token) => PrecipitationType::from_name(token),
        None => None,
    }
}

/// `value` as a severity.
fn as_severity(value: &serde_json::Value) -> (r: Option<Severity>)
    ensures
        r == severity_of(json_of(*value)),
{
    match as_text(value) {
        Some(token) => Severity::from_name(token),
        None => None,
    }
}

/// Whether `value` is of the kind `kind`.
fn fits_kind(value: &serde_json::Value, kind: Kind) -> (r: bool)
    ensures
        r == fits(json_of(*value), kind),
{
    match kind {
        Kind::Unsigned => as_unsigned(value).is_some(),
        Kind::Number => as_number(value).is_some(),
        Kind::Text => as_text(value).is_some(),
        Kind::TextList => as_texts(value).is_some(),
        Kind::Icon => as_icon(value).is_some(),
        Kind::Precipitation => as_precipitation(value).is_some(),
        Kind::Severity => as_severity(value).is_some(),
    }
}

/// Holds the field of `value` that `rule` speaks of against the rule.
fn check_rule(value: &serde_json::Value, rule: &Rule) -> (r: Result<(), DarkskyError>)
    ensures
        outcome(r, rule_failure(json_of(*value), *rule)),
{
    match get(value, rule.name) {
        None => {
            if rule.required {
                Err(missing(rule.name))
            } else {
                Ok(())
            }
        },
        Some(found) => {
            if !rule.required && is_null(found) {
                Ok(())
            } else if fits_kind(found, rule.kind) {
                Ok(())
            } else {
                Err(mismatch(describe(rule.kind), found))
            }
        },
    }
}

/// Holds the fields of `value` against `rules`, one rule after the other,
/// and stops at the first that fails.
fn check_fields(value: &serde_json::Value, rules: &[Rule]) -> (r: Result<(), DarkskyError>)
    ensures
        outcome(r, first_failure(json_of(*value), rules@)),
{
    let ghost failures = rule_failures(json_of(*value), rules@);
    let mut i: usize = 0;
    while i < rules.len()
        invariant
            i <= rules@.len(),
            failures == rule_failures(json_of(*value), rules@),
            forall|k: int| 0 <= k < i ==> failures[k] is None,
        decreases rules@.len() - i,
    {
        match check_rule(value, &rules[i]) {
            Ok(()) => {},
            Err(e) => {
                proof {
                    lemma_first_some_found(failures, i as int);
                }
                return Err(e);
            },
        }
        i += 1;
    }
    proof {
        lemma_first_some_none(failures);
    }
    Ok(())
}

/// Holds `value` against `rules` as an object.
fn check_object(value: &serde_json::Value, rules: &[Rule]) -> (r: Result<(), DarkskyError>)
    ensures
        outcome(r, object_failure(json_of(*value), rules@)),
{
    if is_object(value) {
        check_fields(value, rules)
    } else {
        Err(mismatch("an object", value))
    }
}

/// The field `name` of `value`, read as an unsigned integer.
fn unsigned_at(value: &serde_json::Value, name: &str) -> (r: Option<u64>)
    ensures
        r == field_unsigned(json_of(*value), name@),
{
    match get(value, name) {
        Some(found) => as_unsigned(found),
        None => None,
    }
}

/// The field `name` of `value`, read as a number.
fn number_at(value: &serde_json::Value, name: &str) -> (r: Option<serde_json::Number>)
    ensures
        opt_numeral(r) == field_number(json_of(*value), name@),
{
    match get(value, name) {
        Some(found) => as_number(found),
        None => None,
    }
}

/// The field `name` of `value`, read as a text.
fn text_at(value: &serde_json::Value, name: &str) -> (r: Option<String>)
    ensures
        opt_text(r) == field_text(json_of(*value), name@),
{
    match get(value, name) {
        Some(found) => match as_text(found) {
            Some(t) => Some(t.to_owned()),
            None => None,
        },
        None => None,
    }
}

/// The field `name` of `value`, read as a list of texts.
fn texts_at(value: &serde_json::Value, name: &str) -> (r: Option<Vec<String>>)
    ensures
        opt_texts(r) == field_texts(json_of(*value), name@),
{
    match get(value, name) {
        Some(found) => as_texts(found),
        None => None,
    }
}

/// The field `name` of `value`, read as an icon.
fn icon_at(value: &serde_json::Value, name: &str) -> (r: Option<Icon>)
    ensures
        r == field_icon(json_of(*value), name@),
{
    match get(value, name) {
        Some(found) => as_icon(found),
        None => None,
    }
}

/// The field `name` of `value`, read as a kind of precipitation.
fn precipitation_at(value: &serde_json::Value, name: &str) -> (r: Option<PrecipitationType>)
    ensures
        r == field_precipitation(json_of(*value), name@),
{
    match get(value, name) {
        Some(found) => as_precipitation(found),
        None => None,
    }
}

/// The error for a required field that is missing.
fn missing(name: &'static str) -> (e: DarkskyError)
    ensures
        reports(e, Mismatch { expected: "a required field"@, found: Json::Text(name@) }),
{
    DarkskyError::Decode("a required field", text_value(name))
}

/// The unsigned integer that the field `name` of `value` must hold.
fn unsigned_field(value: &serde_json::Value, name: &'static str) -> (r: Result<u64, DarkskyError>)
    ensures
        outcome(r, rule_failure(json_of(*value), Rule { name, kind: Kind::Unsigned, required: true })),
        r is Ok ==> Some(r->Ok_0) == field_unsigned(json_of(*value), name@),
{
    match get(value, name) {
        None => Err(missing(name)),
        Some(found) => match as_unsigned(found) {
            Some(n) => Ok(n),
            None => Err(mismatch(describe(Kind::Unsigned), found)),
        },
    }
}

/// The number that the field `name` of `value` must hold.
fn number_field(value: &serde_json::Value, name: &'static str) -> (r: Result<
    serde_json::Number,
    DarkskyError,
>)
    ensures
        outcome(r, rule_failure(json_of(*value), Rule { name, kind: Kind::Number, required: true })),
        r is Ok ==> Some(numeral_of(r->Ok_0)) == field_number(json_of(*value), name@),
{
    match get(value, name) {
        None => Err(missing(name)),
        Some(found) => match as_number(found) {
            Some(n) => Ok(n),
            None => Err(mismatch(describe(Kind::Number), found)),
        },
    }
}

/// The text that the field `name` of `value` must hold.
fn text_field(value: &serde_json::Value, name: &'static str) -> (r: Result<String, DarkskyError>)
    ensures
        outcome(r, rule_failure(json_of(*value), Rule { name, kind: Kind::Text, required: true })),
        r is Ok ==> Some(r->Ok_0@) == field_text(json_of(*value), name@),
{
    match get(value, name) {
        None => Err(missing(name)),
        Some(found) => match as_text(found) {
            Some(t) => Ok(t.to_owned()),
            None => Err(mismatch(describe(Kind::Text), found)),
        },
    }
}

/// The list of texts that the field `name` of `value` must hold.
fn texts_field(value: &serde_json::Value, name: &'static str) -> (r: Result<
    Vec<String>,
    DarkskyError,
>)
    ensures
        outcome(r, rule_failure(json_of(*value), Rule { name, kind: Kind::TextList, required: true })),
        r is Ok ==> Some(texts(r->Ok_0)) == field_texts(json_of(*value), name@),
{
    match get(value, name) {
        None => Err(missing(name)),
        Some(found) => match as_texts(found) {
            Some(list) => Ok(list),
            None => Err(mismatch(describe(Kind::TextList), found)),
        },
    }
}

/// The severity that the field `name` of `value` must hold.
fn severity_field(value: &serde_json::Value, name: &'static str) -> (r: Result<
    Severity,
    DarkskyError,
>)
    ensures
        outcome(r, rule_failure(json_of(*value), Rule { name, kind: Kind::Severity, required: true })),
        r is Ok ==> Some(r->Ok_0) == field_severity(json_of(*value), name@),
{
    match get(value, name) {
        None => Err(missing(name)),
        Some(found) => match as_severity(found) {
            Some(s) => Ok(s),
            None => Err(mismatch(describe(Kind::Severity), found)),
        },
    }
}

/// The rules of `datapoint_rules`, as a list to run through.
fn datapoint_rule_list() -> (rules: [Rule; 55])
    ensures
        rules@ == datapoint_rules(),
{
    [
        Rule { name: "apparentTemperatureMaxTime", kind: Kind::Unsigned, required: false },
        Rule { name: "apparentTemperatureMax", kind: Kind::Number, required: false },
        Rule { name: "apparentTemperatureMinTime", kind: Kind::Unsigned, required: false },
        Rule { name: "apparentTemperatureMin", kind: Kind::Number, required: false },
        Rule { name: "apparentTemperature", kind: Kind::Number, required: false },
        Rule { name: "cloudCoverError", kind: Kind::Number, required: false },
        Rule { name: "cloudCover", kind: Kind::Number, required: false },
        Rule { name: "dewPointError", kind: Kind::Number, required: false },
        Rule { name: "dewPoint", kind: Kind::Number, required: false },
        Rule { name: "humidityError", kind: Kind::Number, required: false },
        Rule { name: "humidity", kind: Kind::Number, required: false },
        Rule { name: "icon", kind: Kind::Icon, required: false },
        Rule { name: "moonPhase", kind: Kind::Number, required: false },
        Rule { name: "nearestStormBearing", kind: Kind::Number, required: false },
        Rule { name: "nearestStormDistance", kind: Kind::Number, required: false },
        Rule { name: "ozoneError", kind: Kind::Number, required: false },
        Rule { name: "ozone", kind: Kind::Number, required: false },
        Rule { name: "precipAccumulationError", kind: Kind::Number, required: false },
        Rule { name: "precipAccumulation", kind: Kind::Number, required: false },
        Rule { name: "precipIntensityError", kind: Kind::Number, required: false },
        Rule { name: "precipIntensityMaxError", kind: Kind::Number, required: false },
        Rule { name: "precipIntensityMaxTime", kind: Kind::Unsigned, required: false },
        Rule { name: "precipIntensityMax", kind: Kind::Number, required: false },
        Rule { name: "precipIntensity", kind: Kind::Number, required: false },
        Rule { name: "precipProbabilityError", kind: Kind::Number, required: false },
        Rule { name: "precipProbability", kind: Kind::Number, required: false },
        Rule { name: "precipType", kind: Kind::Precipitation, required: false },
        Rule { name: "pressureError", kind: Kind::Number, required: false },
        Rule { name: "pressure", kind: Kind::Number, required: false },
        Rule { name: "summary", kind: Kind::Text, required: false },
        Rule { name: "sunriseTime", kind: Kind::Unsigned, required: false },
        Rule { name: "sunsetTime", kind: Kind::Unsigned, required: false },
        Rule { name: "temperatureLow", kind: Kind::Number, required: false },
        Rule { name: "temperatureLowTime", kind: Kind::Unsigned, required: false },
        Rule { name: "temperatureHigh", kind: Kind::Number, required: false },
        Rule { name: "temperatureHighTime", kind: Kind::Unsigned, required: false },
        Rule { name: "temperatureMaxError", kind: Kind::Number, required: false },
        Rule { name: "temperatureMaxTime", kind: Kind::Unsigned, required: false },
        Rule { name: "temperatureMax", kind: Kind::Number, required: false },
        Rule { name: "temperatureMinError", kind: Kind::Number, required: false },
        Rule { name: "temperatureMinTime", kind: Kind::Unsigned, required: false },
        Rule { name: "temperatureMin", kind: Kind::Number, required: false },
        Rule { name: "temperatureError", kind: Kind::Number, required: false },
        Rule { name: "temperature", kind: Kind::Number, required: false },
        Rule { name: "time", kind: Kind::Unsigned, required: true },
        Rule { name: "uvIndex", kind: Kind::Unsigned, required: false },
        Rule { name: "uvIndexTime", kind: Kind::Unsigned, required: false },
        Rule { name: "visibilityError", kind: Kind::Number, required: false },
        Rule { name: "visibility", kind: Kind::Number, required: false },
        Rule { name: "windBearingError", kind: Kind::Number, required: false },
        Rule { name: "windBearing", kind: Kind::Number, required: false },
        Rule { name: "windGust", kind: Kind::Number, required: false },
        Rule { name: "windGustTime", kind: Kind::Unsigned, required: false },
        Rule { name: "windSpeedError", kind: Kind::Number, required: false },
        Rule { name: "windSpeed", kind: Kind::Number, required: false },
    ]
}

/// The rules of `alert_rules`, as a list to run through.
fn alert_rule_list() -> (rules: [Rule; 7])
    ensures
        rules@ == alert_rules(),
{
    [
        Rule { name: "expires", kind: Kind::Unsigned, required: true },
        Rule { name: "description", kind: Kind::Text, required: true },
        Rule { name: "title", kind: Kind::Text, required: true },
        Rule { name: "uri", kind: Kind::Text, required: true },
        Rule { name: "regions", kind: Kind::TextList, required: true },
        Rule { name: "time", kind: Kind::Unsigned, required: true },
        Rule { name: "severity", kind: Kind::Severity, required: true },
    ]
}

/// The rules of `flags_rules`, as a list to run through.
fn flags_rule_list() -> (rules: [Rule; 9])
    ensures
        rules@ == flags_rules(),
{
    [
        Rule { name: "darksky-stations", kind: Kind::TextList, required: false },
        Rule { name: "darksky-unavailable", kind: Kind::Text, required: false },
        Rule { name: "datapoint-stations", kind: Kind::TextList, required: false },
        Rule { name: "isd-stations", kind: Kind::TextList, required: false },
        Rule { name: "lamp-stations", kind: Kind::TextList, required: false },
        Rule { name: "metar-stations", kind: Kind::TextList, required: false },
        Rule { name: "metno-license", kind: Kind::Text, required: false },
        Rule { name: "sources", kind: Kind::TextList, required: false },
        Rule { name: "units", kind: Kind::Text, required: false },
    ]
}

/// The rules of `datablock_rules`, as a list to run through.
fn datablock_rule_list() -> (rules: [Rule; 2])
    ensures
        rules@ == datablock_rules(),
{
    [
        Rule { name: "icon", kind: Kind::Icon, required: false },
        Rule { name: "summary", kind: Kind::Text, required: false },
    ]
}

/// Reads a data point from `value`.
///
/// Succeeds exactly when `value` is an object whose known fields fit; the
/// data point then holds each field that is there. Otherwise the error
/// reports the first field that does not fit.
pub fn decode_datapoint(value: &serde_json::Value) -> (r: Result<Datapoint, DarkskyError>)
    ensures
        outcome(r, datapoint_failure(json_of(*value))),
        r is Ok ==> datapoint_agrees(r->Ok_0, json_of(*value)),
{
    let rules = datapoint_rule_list();
    match check_object(value, &rules) {
        Ok(()) => {},
        Err(e) => {
            return Err(e);
        },
    }
    proof {
        lemma_rule_holds(json_of(*value), datapoint_rules(), 44);
    }
    let time = match unsigned_field(value, "time") {
        Ok(x) => x,
        Err(e) => {
            return Err(e);
        },
    };
    Ok(
    Datapoint {
        apparent_temperature_max_time: unsigned_at(value, "apparentTemperatureMaxTime"),
        apparent_temperature_max: number_at(value, "apparentTemperatureMax"),
        apparent_temperature_min_time: unsigned_at(value, "apparentTemperatureMinTime"),
        apparent_temperature_min: number_at(value, "apparentTemperatureMin"),
        apparent_temperature: number_at(value, "apparentTemperature"),
        cloud_cover_error: number_at(value, "cloudCoverError"),
        cloud_cover: number_at(value, "cloudCover"),
        dew_point_error: number_at(value, "dewPointError"),
        dew_point: number_at(value, "dewPoint"),
        humidity_error: number_at(value, "humidityError"),
        humidity: number_at(value, "humidity"),
        icon: icon_at(value, "icon"),
        moon_phase: number_at(value, "moonPhase"),
        nearest_storm_bearing: number_at(value, "nearestStormBearing"),
        nearest_storm_distance: number_at(value, "nearestStormDistance"),
        ozone_error: number_at(value, "ozoneError"),
        ozone: number_at(value, "ozone"),
        precip_accumulation_error: number_at(value, "precipAccumulationError"),
        precip_accumulation: number_at(value, "precipAccumulation"),
        precip_intensity_error: number_at(value, "precipIntensityError"),
        precip_intensity_max_error: number_at(value, "precipIntensityMaxError"),
        precip_intensity_max_time: unsigned_at(value, "precipIntensityMaxTime"),
        precip_intensity_max: number_at(value, "precipIntensityMax"),
        precip_intensity: number_at(value, "precipIntensity"),
        precip_probability_error: number_at(value, "precipProbabilityError"),
        precip_probability: number_at(value, "precipProbability"),
        precip_type: precipitation_at(value, "precipType"),
        pressure_error: number_at(value, "pressureError"),
        pressure: number_at(value, "pressure"),
        summary: text_at(value, "summary"),
        sunrise_time: unsigned_at(value, "sunriseTime"),
        sunset_time: unsigned_at(value, "sunsetTime"),
        temperature_low: number_at(value, "temperatureLow"),
        temperature_low_time: unsigned_at(value, "temperatureLowTime"),
        temperature_high: number_at(value, "temperatureHigh"),
        temperature_high_time: unsigned_at(value, "temperatureHighTime"),
        temperature_max_error: number_at(value, "temperatureMaxError"),
        temperature_max_time: unsigned_at(value, "temperatureMaxTime"),
        temperature_max: number_at(value, "temperatureMax"),
        temperature_min_error: number_at(value, "temperatureMinError"),
        temperature_min_time: unsigned_at(value, "temperatureMinTime"),
        temperature_min: number_at(value, "temperatureMin"),
        temperature_error: number_at(value, "temperatureError"),
        temperature: number_at(value, "temperature"),
        time,
        uv_index: unsigned_at(value, "uvIndex"),
        uv_index_time: unsigned_at(value, "uvIndexTime"),
        visibility_error: number_at(value, "visibilityError"),
        visibility: number_at(value, "visibility"),
        wind_bearing_error: number_at(value, "windBearingError"),
        wind_bearing: number_at(value, "windBearing"),
        wind_gust: number_at(value, "windGust"),
        wind_gust_time: unsigned_at(value, "windGustTime"),
        wind_speed_error: number_at(value, "windSpeedError"),
        wind_speed: number_at(value, "windSpeed"),
    },
    )
}

/// Reads an alert from `value`.
///
/// Succeeds exactly when `value` is an object that has every field of an
/// alert, each of its kind. Otherwise the error reports the first field
/// that is missing or does not fit.
pub fn decode_alert(value: &serde_json::Value) -> (r: Result<Alert, DarkskyError>)
    ensures
        outcome(r, alert_failure(json_of(*value))),
        r is Ok ==> alert_agrees(r->Ok_0, json_of(*value)),
{
    let rules = alert_rule_list();
    match check_object(value, &rules) {
        Ok(()) => {},
        Err(e) => {
            return Err(e);
        },
    }
    proof {
        lemma_rule_holds(json_of(*value), alert_rules(), 0);
        lemma_rule_holds(json_of(*value), alert_rules(), 1);
        lemma_rule_holds(json_of(*value), alert_rules(), 2);
        lemma_rule_holds(json_of(*value), alert_rules(), 3);
        lemma_rule_holds(json_of(*value), alert_rules(), 4);
        lemma_rule_holds(json_of(*value), alert_rules(), 5);
        lemma_rule_holds(json_of(*value), alert_rules(), 6);
    }
    let expires = match unsigned_field(value, "expires") {
        Ok(x) => x,
        Err(e) => {
            return Err(e);
        },
    };
    let description = match text_field(value, "description") {
        Ok(x) => x,
        Err(e) => {
            return Err(e);
        },
    };
    let title = match text_field(value, "title") {
        Ok(x) => x,
        Err(e) => {
            return Err(e);
        },
    };
    let uri = match text_field(value, "uri") {
        Ok(x) => x,
        Err(e) => {
            return Err(e);
        },
    };
    let regions = match texts_field(value, "regions") {
        Ok(x) => x,
        Err(e) => {
            return Err(e);
        },
    };
    let time = match unsigned_field(value, "time") {
        Ok(x) => x,
        Err(e) => {
            return Err(e);
        },
    };
    let severity = match severity_field(value, "severity") {
        Ok(x) => x,
        Err(e) => {
            return Err(e);
        },
    };
    Ok(
    Alert {
        expires,
        description,
        title,
        uri,
        regions,
        time,
        severity,
    },
    )
}

/// Reads the metadata of a response from `value`.
///
/// Succeeds exactly when `value` is an object whose known fields fit.
/// Otherwise the error reports the first field that does not fit.
pub fn decode_flags(value: &serde_json::Value) -> (r: Result<Flags, DarkskyError>)
    ensures
        outcome(r, flags_failure(json_of(*value))),
        r is Ok ==> flags_agrees(r->Ok_0, json_of(*value)),
{
    let rules = flags_rule_list();
    match check_object(value, &rules) {
        Ok(()) => {},
        Err(e) => {
            return Err(e);
        },
    }
    Ok(
    Flags {
        darksky_stations: texts_at(value, "darksky-stations"),
        darksky_unavailable: text_at(value, "darksky-unavailable"),
        datapoint_stations: texts_at(value, "datapoint-stations"),
        isd_stations: texts_at(value, "isd-stations"),
        lamp_stations: texts_at(value, "lamp-stations"),
        metar_stations: texts_at(value, "metar-stations"),
        metno_license: text_at(value, "metno-license"),
        sources: texts_at(value, "sources"),
        units: text_at(value, "units"),
    },
    )
}

/// Reads a list of data points from `value`.
fn decode_points(value: &serde_json::Value) -> (r: Result<Vec<Datapoint>, DarkskyError>)
    ensures
        outcome(r, points_failure(json_of(*value))),
        r is Ok ==> items_of(json_of(*value)) is Some && points_agree(
            r->Ok_0@,
            items_of(json_of(*value))->Some_0,
        ),
{
    match as_items(value) {
        None => Err(mismatch("a list", value)),
        Some(items) => {
            let ghost model = items_of(json_of(*value))->Some_0;
            let ghost failures = Seq::new(model.len(), |i: int| datapoint_failure(model[i]));
            let mut points: Vec<Datapoint> = Vec::new();
            let mut i: usize = 0;
            while i < items.len()
                invariant
                    i <= items@.len(),
                    items_of(json_of(*value)) == Some(model),
                    model.len() == items@.len(),
                    model == jsons_of(items@),
                    failures == Seq::new(model.len(), |i: int| datapoint_failure(model[i])),
                    points@.len() == i,
                    forall|k: int| 0 <= k < i ==> failures[k] is None,
                    forall|k: int| 0 <= k < i ==> datapoint_agrees(#[trigger] points@[k], model[k]),
                decreases items@.len() - i,
            {
                match decode_datapoint(&items[i]) {
                    Ok(point) => {
                        points.push(point);
                    },
                    Err(e) => {
                        proof {
                            lemma_first_some_found(failures, i as int);
                        }
                        return Err(e);
                    },
                }
                i += 1;
            }
            proof {
                lemma_first_some_none(failures);
            }
            Ok(points)
        },
    }
}

/// Reads a list of alerts from `value`.
fn decode_alerts(value: &serde_json::Value) -> (r: Result<Vec<Alert>, DarkskyError>)
    ensures
        outcome(r, alerts_failure(json_of(*value))),
        r is Ok ==> items_of(json_of(*value)) is Some && alerts_agree(
            r->Ok_0@,
            items_of(json_of(*value))->Some_0,
        ),
{
    match as_items(value) {
        None => Err(mismatch("a list", value)),
        Some(items) => {
            let ghost model = items_of(json_of(*value))->Some_0;
            let ghost failures = Seq::new(model.len(), |i: int| alert_failure(model[i]));
            let mut alerts: Vec<Alert> = Vec::new();
            let mut i: usize = 0;
            while i < items.len()
                invariant
                    i <= items@.len(),
                    items_of(json_of(*value)) == Some(model),
                    model.len() == items@.len(),
                    model == jsons_of(items@),
                    failures == Seq::new(model.len(), |i: int| alert_failure(model[i])),
                    alerts@.len() == i,
                    forall|k: int| 0 <= k < i ==> failures[k] is None,
                    forall|k: int| 0 <= k < i ==> alert_agrees(#[trigger] alerts@[k], model[k]),
                decreases items@.len() - i,
            {
                match decode_alert(&items[i]) {
                    Ok(alert) => {
                        alerts.push(alert);
                    },
                    Err(e) => {
                        proof {
                            lemma_first_some_found(failures, i as int);
                        }
                        return Err(e);
                    },
                }
                i += 1;
            }
            proof {
                lemma_first_some_none(failures);
            }
            Ok(alerts)
        },
    }
}

/// Reads a block of data from `value`.
///
/// Succeeds exactly when `value` is an object whose data points, where it
/// lists any, are data points, and whose other known fields fit. Otherwise
/// the error reports the first thing that does not fit.
pub fn decode_datablock(value: &serde_json::Value) -> (r: Result<Datablock, DarkskyError>)
    ensures
        outcome(r, datablock_failure(json_of(*value))),
        r is Ok ==> datablock_agrees(r->Ok_0, json_of(*value)),
{
    if !is_object(value) {
        return Err(mismatch("an object", value));
    }
    let data = match get(value, "data") {
        Some(found) => {
            if is_null(found) {
                None
            } else {
                match decode_points(found) {
                    Ok(points) => Some(points),
                    Err(e) => {
                        return Err(e);
                    },
                }
            }
        },
        None => None,
    };
    let rules = datablock_rule_list();
    match check_fields(value, &rules) {
        Ok(()) => {},
        Err(e) => {
            return Err(e);
        },
    }
    Ok(Datablock { data, icon: icon_at(value, "icon"), summary: text_at(value, "summary") })
}

/// Reads the data point in the field `name` of `value`, if there is one.
fn datapoint_part(value: &serde_json::Value, name: &str) -> (r: Result<
    Option<Datapoint>,
    DarkskyError,
>)
    ensures
        outcome(r, datapoint_part_failure(json_of(*value), name@)),
        r is Ok ==> datapoint_part_agrees(r->Ok_0, json_of(*value), name@),
{
    match get(value, name) {
        Some(found) => {
            if is_null(found) {
                Ok(None)
            } else {
                match decode_datapoint(found) {
                    Ok(point) => Ok(Some(point)),
                    Err(e) => Err(e),
                }
            }
        },
        None => Ok(None),
    }
}

/// Reads the block of data in the field `name` of `value`, if there is one.
fn datablock_part(value: &serde_json::Value, name: &str) -> (r: Result<
    Option<Datablock>,
    DarkskyError,
>)
    ensures
        outcome(r, datablock_part_failure(json_of(*value), name@)),
        r is Ok ==> datablock_part_agrees(r->Ok_0, json_of(*value), name@),
{
    match get(value, name) {
        Some(found) => {
            if is_null(found) {
                Ok(None)
            } else {
                match decode_datablock(found) {
                    Ok(block) => Ok(Some(block)),
                    Err(e) => Err(e),
                }
            }
        },
        None => Ok(None),
    }
}

/// Reads the metadata in the field `name` of `value`, if there is any.
fn flags_part(value: &serde_json::Value, name: &str) -> (r: Result<Option<Flags>, DarkskyError>)
    ensures
        outcome(r, flags_part_failure(json_of(*value), name@)),
        r is Ok ==> flags_part_agrees(r->Ok_0, json_of(*value), name@),
{
    match get(value, name) {
        Some(found) => {
            if is_null(found) {
                Ok(None)
            } else {
                match decode_flags(found) {
                    Ok(flags) => Ok(Some(flags)),
                    Err(e) => Err(e),
                }
            }
        },
        None => Ok(None),
    }
}

/// Reads the alerts in the field `name` of `value`; none where the field
/// is missing.
fn alerts_part(value: &serde_json::Value, name: &str) -> (r: Result<Vec<Alert>, DarkskyError>)
    ensures
        outcome(r, alerts_part_failure(json_of(*value), name@)),
        r is Ok ==> alerts_part_agrees(r->Ok_0@, json_of(*value), name@),
{
    match get(value, name) {
        Some(found) => decode_alerts(found),
        None => Ok(Vec::new()),
    }
}

/// Reads a forecast from a parsed response.
///
/// Succeeds exactly when `value` has the shape of a forecast, and then
/// gives the forecast that holds what `value` reports. Otherwise the error
/// reports the first thing that does not fit.
pub fn decode_value(value: &serde_json::Value) -> (r: Result<Forecast, DarkskyError>)
    ensures
        outcome(r, forecast_failure(json_of(*value))),
        r is Ok ==> forecast_agrees(r->Ok_0, json_of(*value)),
{
    if !is_object(value) {
        return Err(mismatch("an object", value));
    }
    let alerts = match alerts_part(value, "alerts") {
        Ok(x) => x,
        Err(e) => {
            return Err(e);
        },
    };
    let currently = match datapoint_part(value, "currently") {
        Ok(x) => x,
        Err(e) => {
            return Err(e);
        },
    };
    let daily = match datablock_part(value, "daily") {
        Ok(x) => x,
        Err(e) => {
            return Err(e);
        },
    };
    let flags = match flags_part(value, "flags") {
        Ok(x) => x,
        Err(e) => {
            return Err(e);
        },
    };
    let hourly = match datablock_part(value, "hourly") {
        Ok(x) => x,
        Err(e) => {
            return Err(e);
        },
    };
    let latitude = match number_field(value, "latitude") {
        Ok(x) => x,
        Err(e) => {
            return Err(e);
        },
    };
    let longitude = match number_field(value, "longitude") {
        Ok(x) => x,
        Err(e) => {
            return Err(e);
        },
    };
    let minutely = match datablock_part(value, "minutely") {
        Ok(x) => x,
        Err(e) => {
            return Err(e);
        },
    };
    match check_rule(value, &Rule { name: "offset", kind: Kind::Number, required: false }) {
        Ok(()) => {},
        Err(e) => {
            return Err(e);
        },
    }
    let offset = number_at(value, "offset");
    let timezone = match text_field(value, "timezone") {
        Ok(x) => x,
        Err(e) => {
            return Err(e);
        },
    };
    Ok(
        Forecast {
            alerts,
            currently,
            daily,
            flags,
            hourly,
            latitude,
            longitude,
            minutely,
            offset,
            timezone,
        },
    )
}

/// What decoding makes of a body that spells `parsed_body`: the error that
/// the text is no JSON, or what reading the value against the shape gives.
pub open spec fn decoded(r: Result<Forecast, DarkskyError>, parsed_body: Option<Json>) -> bool {
    match parsed_body {
        Some(json) => outcome(r, forecast_failure(json)) && (r is Ok ==> forecast_agrees(
            r->Ok_0,
            json,
        )),
        None => r is Err && r->Err_0 is Json,
    }
}

/// What to hand back for the outcome `parsed_body` of parsing a response.
pub fn decode_parsed(parsed_body: Result<serde_json::Value, serde_json::Error>) -> (r: Result<
    Forecast,
    DarkskyError,
>)
    ensures
        match parsed_body {
            Ok(value) => outcome(r, forecast_failure(json_of(value))) && (r is Ok
                ==> forecast_agrees(r->Ok_0, json_of(value))),
            Err(why) => r == Err::<Forecast, DarkskyError>(DarkskyError::Json(why)),
        },
{
    match parsed_body {
        Ok(value) => decode_value(&value),
        Err(why) => Err(DarkskyError::Json(why)),
    }
}

/// Decodes the body of a response.
///
/// A body that is not JSON gives the parser's error. A body that is JSON
/// gives what [`decode_value`] makes of the value.
pub fn decode(body: &[u8]) -> (r: Result<Forecast, DarkskyError>)
    ensures
        decoded(r, parsed(body@)),
{
    decode_parsed(parse(body))
}

} // verus!
