//! The shape of a response: what a JSON value must look like to be a
//! forecast, what is wrong with one that does not, and what a forecast
//! holds that was read from one that does.
//!
//! An object is held against a list of rules, one for each field that the
//! shape knows; fields that it does not know are passed over. A field that
//! may be missing is in order when it is missing or null. The rules are
//! gone through in a fixed order, and the first that fails says what is
//! wrong.

use crate::error::DarkskyError;
use crate::json::{
    items_of, json_of, member, number_of, numeral_of, text_of, unsigned_of, Json, Numeral,
};
use crate::models::{
    Alert, Datablock, Datapoint, Flags, Forecast, Icon, PrecipitationType, Severity,
};
use vstd::prelude::*;

verus! {

/// The kinds of value that a plain field can ask for.
#[derive(Clone, Copy, Debug, PartialEq, Eq, Structural)]
pub enum Kind {
    /// An unsigned integer that fits 64 bits.
    Unsigned,
    /// Any number.
    Number,
    /// A string.
    Text,
    /// An array of strings.
    TextList,
    /// A string that is the token of an icon.
    Icon,
    /// A string that is the token of a kind of precipitation.
    Precipitation,
    /// A string that is the token of a severity.
    Severity,
}

/// What the shape asks of one field of an object.
#[derive(Clone, Copy, Debug)]
pub struct Rule {
    /// The name of the field.
    pub name: &'static str,
    /// The kind of value it must hold.
    pub kind: Kind,
    /// Whether it must be there. A field that need not be there may also be
    /// null.
    pub required: bool,
}

/// Why a value does not fit the shape: what was expected, and what was found
/// in its place. For a required field that is missing, the field's name is
/// what is found.
pub struct Mismatch {
    /// The words for what was expected.
    pub expected: Seq<char>,
    /// What was found.
    pub found: Json,
}

/// Every item is a string.
pub open spec fn all_texts(items: Seq<Json>) -> bool {
    forall|i: int| 0 <= i < items.len() ==> text_of(#[trigger] items[i]) is Some
}

/// `json` as a list of texts.
pub open spec fn texts_of(json: Json) -> Option<Seq<Seq<char>>> {
    match items_of(json) {
        Some(items) => if all_texts(items) {
            Some(Seq::new(items.len(), |i: int| text_of(items[i])->Some_0))
        } else {
            None
        },
        None => None,
    }
}

/// `json` as an icon.
pub open spec fn icon_of(json: Json) -> Option<Icon> {
    match text_of(json) {
        Some(token) => Icon::of_token(token),
        None => None,
    }
}

/// `json` as a kind of precipitation.
pub open spec fn precipitation_of(json: Json) -> Option<PrecipitationType> {
    match text_of(json) {
        Some(token) => PrecipitationType::of_token(token),
        None => None,
    }
}

/// `json` as a severity.
pub open spec fn severity_of(json: Json) -> Option<Severity> {
    match text_of(json) {
        Some(token) => Severity::of_token(token),
        None => None,
    }
}

/// `json` is a value of the kind `kind`.
pub open spec fn fits(json: Json, kind: Kind) -> bool {
    match kind {
        Kind::Unsigned => unsigned_of(json) is Some,
        Kind::Number => number_of(json) is Some,
        Kind::Text => text_of(json) is Some,
        Kind::TextList => texts_of(json) is Some,
        Kind::Icon => icon_of(json) is Some,
        Kind::Precipitation => precipitation_of(json) is Some,
        Kind::Severity => severity_of(json) is Some,
    }
}

/// The words for a value of the kind `kind`.
pub open spec fn expectation(kind: Kind) -> Seq<char> {
    match kind {
        Kind::Unsigned => "an unsigned integer"@,
        Kind::Number => "a number"@,
        Kind::Text => "a string"@,
        Kind::TextList => "a list of strings"@,
        Kind::Icon => "the name of an icon"@,
        Kind::Precipitation => "the name of a kind of precipitation"@,
        Kind::Severity => "the name of a severity"@,
    }
}

/// What is wrong with the field of `json` that `rule` speaks of, if
/// anything.
pub open spec fn rule_failure(json: Json, rule: Rule) -> Option<Mismatch> {
    match member(json, rule.name@) {
        None => if rule.required {
            Some(Mismatch { expected: "a required field"@, found: Json::Text(rule.name@) })
        } else {
            None
        },
        Some(found) => if !rule.required && found is Null {
            None
        } else if fits(found, rule.kind) {
            None
        } else {
            Some(Mismatch { expected: expectation(rule.kind), found })
        },
    }
}

/// The first of `steps` that found something wrong.
pub open spec fn first_some(steps: Seq<Option<Mismatch>>) -> Option<Mismatch>
    decreases steps.len(),
{
    if steps.len() == 0 {
        None
    } else if steps[0] is Some {
        steps[0]
    } else {
        first_some(steps.drop_first())
    }
}

/// `first` where it found something wrong, else `second`.
pub open spec fn or_else(first: Option<Mismatch>, second: Option<Mismatch>) -> Option<Mismatch> {
    if first is Some {
        first
    } else {
        second
    }
}

/// What each of `rules` finds wrong with `json`.
pub open spec fn rule_failures(json: Json, rules: Seq<Rule>) -> Seq<Option<Mismatch>> {
    Seq::new(rules.len(), |i: int| rule_failure(json, rules[i]))
}

/// What the first of `rules` that fails finds wrong with `json`.
pub open spec fn first_failure(json: Json, rules: Seq<Rule>) -> Option<Mismatch> {
    first_some(rule_failures(json, rules))
}

/// What is wrong with `json` as an object whose fields obey `rules`.
pub open spec fn object_failure(json: Json, rules: Seq<Rule>) -> Option<Mismatch> {
    if json is Object {
        first_failure(json, rules)
    } else {
        Some(Mismatch { expected: "an object"@, found: json })
    }
}

/// Where a step finds something wrong and none before it does, it is the
/// first to do so.
pub proof fn lemma_first_some_found(steps: Seq<Option<Mismatch>>, i: int)
    requires
        0 <= i < steps.len(),
        forall|k: int| 0 <= k < i ==> steps[k] is None,
        steps[i] is Some,
    ensures
        first_some(steps) == steps[i],
    decreases i,
{
    if i > 0 {
        lemma_first_some_found(steps.drop_first(), i - 1);
    }
}

/// Nothing is found wrong exactly when no step finds anything wrong.
pub proof fn lemma_first_some_none(steps: Seq<Option<Mismatch>>)
    ensures
        first_some(steps) is None <==> forall|k: int| 0 <= k < steps.len() ==> steps[k] is None,
    decreases steps.len(),
{
    if steps.len() > 0 {
        let rest = steps.drop_first();
        lemma_first_some_none(rest);
        if first_some(steps) is None {
            assert forall|k: int| 0 <= k < steps.len() implies steps[k] is None by {
                if k > 0 {
                    assert(rest[k - 1] == steps[k]);
                }
            }
        }
    }
}

/// An object that passes its rules passes each of them.
pub proof fn lemma_rule_holds(json: Json, rules: Seq<Rule>, k: int)
    requires
        first_failure(json, rules) is None,
        0 <= k < rules.len(),
    ensures
        rule_failure(json, rules[k]) is None,
{
    lemma_first_some_none(rule_failures(json, rules));
    assert(rule_failures(json, rules)[k] is None);
}

/// `error` is a decoding error that reports `mismatch`.
pub open spec fn reports(error: DarkskyError, mismatch: Mismatch) -> bool {
    &&& error is Decode
    &&& error->Decode_0@ == mismatch.expected
    &&& json_of(error->Decode_1) == mismatch.found
}

/// `r` is the right outcome where the shape finds `failure`: success where
/// nothing is wrong, and otherwise the error that reports what is.
pub open spec fn outcome<T>(r: Result<T, DarkskyError>, failure: Option<Mismatch>) -> bool {
    match failure {
        Some(mismatch) => r is Err && reports(r->Err_0, mismatch),
        None => r is Ok,
    }
}

/// The views of `list`, item by item.
pub open spec fn texts(list: Vec<String>) -> Seq<Seq<char>> {
    Seq::new(list@.len(), |i: int| list@[i]@)
}

/// The view of an optional text.
pub open spec fn opt_text(text: Option<String>) -> Option<Seq<char>> {
    match text {
        Some(t) => Some(t@),
        None => None,
    }
}

/// What an optional number is.
pub open spec fn opt_numeral(number: Option<serde_json::Number>) -> Option<Numeral> {
    match number {
        Some(n) => Some(numeral_of(n)),
        None => None,
    }
}

/// The views of an optional list of texts.
pub open spec fn opt_texts(list: Option<Vec<String>>) -> Option<Seq<Seq<char>>> {
    match list {
        Some(l) => Some(texts(l)),
        None => None,
    }
}

/// The field `name` of `json`, read as an unsigned integer.
pub open spec fn field_unsigned(json: Json, name: Seq<char>) -> Option<u64> {
    match member(json, name) {
        Some(found) => unsigned_of(found),
        None => None,
    }
}

/// The field `name` of `json`, read as a number.
pub open spec fn field_number(json: Json, name: Seq<char>) -> Option<Numeral> {
    match member(json, name) {
        Some(found) => number_of(found),
        None => None,
    }
}

/// The field `name` of `json`, read as a text.
pub open spec fn field_text(json: Json, name: Seq<char>) -> Option<Seq<char>> {
    match member(json, name) {
        Some(found) => text_of(found),
        None => None,
    }
}

/// The field `name` of `json`, read as a list of texts.
pub open spec fn field_texts(json: Json, name: Seq<char>) -> Option<Seq<Seq<char>>> {
    match member(json, name) {
        Some(found) => texts_of(found),
        None => None,
    }
}

/// The field `name` of `json`, read as an icon.
pub open spec fn field_icon(json: Json, name: Seq<char>) -> Option<Icon> {
    match member(json, name) {
        Some(found) => icon_of(found),
        None => None,
    }
}

/// The field `name` of `json`, read as a kind of precipitation.
pub open spec fn field_precipitation(json: Json, name: Seq<char>) -> Option<PrecipitationType> {
    match member(json, name) {
        Some(found) => precipitation_of(found),
        None => None,
    }
}

/// The field `name` of `json`, read as a severity.
pub open spec fn field_severity(json: Json, name: Seq<char>) -> Option<Severity> {
    match member(json, name) {
        Some(found) => severity_of(found),
        None => None,
    }
}

/// The field `name` of `json`, where it is there and not null.
pub open spec fn part(json: Json, name: Seq<char>) -> Option<Json> {
    match member(json, name) {
        Some(found) => if found is Null {
            None
        } else {
            Some(found)
        },
        None => None,
    }
}

/// The fields of a data point, in the order in which they are checked.
pub open spec fn datapoint_rules() -> Seq<Rule> {
    seq![
        Rule { name: "apparentTemperatureMaxTime", kind: Kind::Unsigned, required: false },
        Rule { name: "apparentTemperatureMax", kind: Kind::Number, required: false },
        Rule { name: "apparentTemperatureMinTime", kind: Kind::Unsigned, required: false },
        Rule { name: "apparentTemperatureMin", kind: Kind::Number, required: false },
        Rule { name: "apparentTemperature", kind: Kind::Number, required: false },
        Rule { name: "cloudCoverError", kind: Kind::Number, required: false },
        Rule { name: "cloudCover", kind: Kind::Number, required: false },
        Rule { name: "dewPointError", kind: Kind::Number, required: false },
        Rule { name: "dewPoint", kind: Kind::Number, required: false },
        Rule { name: "humidityError", kind: Kind::Number, required: false },
        Rule { name: "humidity", kind: Kind::Number, required: false },
        Rule { name: "icon", kind: Kind::Icon, required: false },
        Rule { name: "moonPhase", kind: Kind::Number, required: false },
        Rule { name: "nearestStormBearing", kind: Kind::Number, required: false },
        Rule { name: "nearestStormDistance", kind: Kind::Number, required: false },
        Rule { name: "ozoneError", kind: Kind::Number, required: false },
        Rule { name: "ozone", kind: Kind::Number, required: false },
        Rule { name: "precipAccumulationError", kind: Kind::Number, required: false },
        Rule { name: "precipAccumulation", kind: Kind::Number, required: false },
        Rule { name: "precipIntensityError", kind: Kind::Number, required: false },
        Rule { name: "precipIntensityMaxError", kind: Kind::Number, required: false },
        Rule { name: "precipIntensityMaxTime", kind: Kind::Unsigned, required: false },
        Rule { name: "precipIntensityMax", kind: Kind::Number, required: false },
        Rule { name: "precipIntensity", kind: Kind::Number, required: false },
        Rule { name: "precipProbabilityError", kind: Kind::Number, required: false },
        Rule { name: "precipProbability", kind: Kind::Number, required: false },
        Rule { name: "precipType", kind: Kind::Precipitation, required: false },
        Rule { name: "pressureError", kind: Kind::Number, required: false },
        Rule { name: "pressure", kind: Kind::Number, required: false },
        Rule { name: "summary", kind: Kind::Text, required: false },
        Rule { name: "sunriseTime", kind: Kind::Unsigned, required: false },
        Rule { name: "sunsetTime", kind: Kind::Unsigned, required: false },
        Rule { name: "temperatureLow", kind: Kind::Number, required: false },
        Rule { name: "temperatureLowTime", kind: Kind::Unsigned, required: false },
        Rule { name: "temperatureHigh", kind: Kind::Number, required: false },
        Rule { name: "temperatureHighTime", kind: Kind::Unsigned, required: false },
        Rule { name: "temperatureMaxError", kind: Kind::Number, required: false },
        Rule { name: "temperatureMaxTime", kind: Kind::Unsigned, required: false },
        Rule { name: "temperatureMax", kind: Kind::Number, required: false },
        Rule { name: "temperatureMinError", kind: Kind::Number, required: false },
        Rule { name: "temperatureMinTime", kind: Kind::Unsigned, required: false },
        Rule { name: "temperatureMin", kind: Kind::Number, required: false },
        Rule { name: "temperatureError", kind: Kind::Number, required: false },
        Rule { name: "temperature", kind: Kind::Number, required: false },
        Rule { name: "time", kind: Kind::Unsigned, required: true },
        Rule { name: "uvIndex", kind: Kind::Unsigned, required: false },
        Rule { name: "uvIndexTime", kind: Kind::Unsigned, required: false },
        Rule { name: "visibilityError", kind: Kind::Number, required: false },
        Rule { name: "visibility", kind: Kind::Number, required: false },
        Rule { name: "windBearingError", kind: Kind::Number, required: false },
        Rule { name: "windBearing", kind: Kind::Number, required: false },
        Rule { name: "windGust", kind: Kind::Number, required: false },
        Rule { name: "windGustTime", kind: Kind::Unsigned, required: false },
        Rule { name: "windSpeedError", kind: Kind::Number, required: false },
        Rule { name: "windSpeed", kind: Kind::Number, required: false },
    ]
}

/// The fields of an alert, in the order in which they are checked. An alert
/// has to carry them all.
pub open spec fn alert_rules() -> Seq<Rule> {
    seq![
        Rule { name: "expires", kind: Kind::Unsigned, required: true },
        Rule { name: "description", kind: Kind::Text, required: true },
        Rule { name: "title", kind: Kind::Text, required: true },
        Rule { name: "uri", kind: Kind::Text, required: true },
        Rule { name: "regions", kind: Kind::TextList, required: true },
        Rule { name: "time", kind: Kind::Unsigned, required: true },
        Rule { name: "severity", kind: Kind::Severity, required: true },
    ]
}

/// The fields of the metadata, in the order in which they are checked.
pub open spec fn flags_rules() -> Seq<Rule> {
    seq![
        Rule { name: "darksky-stations", kind: Kind::TextList, required: false },
        Rule { name: "darksky-unavailable", kind: Kind::Text, required: false },
        Rule { name: "datapoint-stations", kind: Kind::TextList, required: false },
        Rule { name: "isd-stations", kind: Kind::TextList, required: false },
        Rule { name: "lamp-stations", kind: Kind::TextList, required: false },
        Rule { name: "metar-stations", kind: Kind::TextList, required: false },
        Rule { name: "metno-license", kind: Kind::Text, required: false },
        Rule { name: "sources", kind: Kind::TextList, required: false },
        Rule { name: "units", kind: Kind::Text, required: false },
    ]
}

/// The plain fields of a block of data. Its data points are checked before
/// them.
pub open spec fn datablock_rules() -> Seq<Rule> {
    seq![
        Rule { name: "icon", kind: Kind::Icon, required: false },
        Rule { name: "summary", kind: Kind::Text, required: false },
    ]
}

/// What is wrong with `json` as a data point.
pub open spec fn datapoint_failure(json: Json) -> Option<Mismatch> {
    object_failure(json, datapoint_rules())
}

/// What is wrong with `json` as an alert.
pub open spec fn alert_failure(json: Json) -> Option<Mismatch> {
    object_failure(json, alert_rules())
}

/// What is wrong with `json` as the metadata of a response.
pub open spec fn flags_failure(json: Json) -> Option<Mismatch> {
    object_failure(json, flags_rules())
}

/// What is wrong with `json` as a list of data points: it is no list, or
/// else what is wrong with the first item that is no data point.
pub open spec fn points_failure(json: Json) -> Option<Mismatch> {
    match items_of(json) {
        Some(items) => first_some(Seq::new(items.len(), |i: int| datapoint_failure(items[i]))),
        None => Some(Mismatch { expected: "a list"@, found: json }),
    }
}

/// What is wrong with `json` as a list of alerts: it is no list, or else
/// what is wrong with the first item that is no alert.
pub open spec fn alerts_failure(json: Json) -> Option<Mismatch> {
    match items_of(json) {
        Some(items) => first_some(Seq::new(items.len(), |i: int| alert_failure(items[i]))),
        None => Some(Mismatch { expected: "a list"@, found: json }),
    }
}

/// What is wrong with `json` as a block of data.
pub open spec fn datablock_failure(json: Json) -> Option<Mismatch> {
    if json is Object {
        or_else(
            match part(json, "data"@) {
                Some(found) => points_failure(found),
                None => None,
            },
            first_failure(json, datablock_rules()),
        )
    } else {
        Some(Mismatch { expected: "an object"@, found: json })
    }
}

/// What is wrong with the field `name` of `json` as a data point that may
/// be missing.
pub open spec fn datapoint_part_failure(json: Json, name: Seq<char>) -> Option<Mismatch> {
    match part(json, name) {
        Some(found) => datapoint_failure(found),
        None => None,
    }
}

/// What is wrong with the field `name` of `json` as a block of data that
/// may be missing.
pub open spec fn datablock_part_failure(json: Json, name: Seq<char>) -> Option<Mismatch> {
    match part(json, name) {
        Some(found) => datablock_failure(found),
        None => None,
    }
}

/// What is wrong with the field `name` of `json` as metadata that may be
/// missing.
pub open spec fn flags_part_failure(json: Json, name: Seq<char>) -> Option<Mismatch> {
    match part(json, name) {
        Some(found) => flags_failure(found),
        None => None,
    }
}

/// What is wrong with the field `name` of `json` as a list of alerts. A
/// list that is missing is in order; null is no list.
pub open spec fn alerts_part_failure(json: Json, name: Seq<char>) -> Option<Mismatch> {
    match member(json, name) {
        Some(found) => alerts_failure(found),
        None => None,
    }
}

/// The rule for the latitude of a forecast.
pub open spec fn latitude_rule() -> Rule {
    Rule { name: "latitude", kind: Kind::Number, required: true }
}

/// The rule for the longitude of a forecast.
pub open spec fn longitude_rule() -> Rule {
    Rule { name: "longitude", kind: Kind::Number, required: true }
}

/// The rule for the offset of a forecast from UTC.
pub open spec fn offset_rule() -> Rule {
    Rule { name: "offset", kind: Kind::Number, required: false }
}

/// The rule for the time zone of a forecast.
pub open spec fn timezone_rule() -> Rule {
    Rule { name: "timezone", kind: Kind::Text, required: true }
}

/// What is wrong with `json` as a forecast: it is no object, or else what
/// is wrong with the first of its fields that does not fit, in the order
/// alerts, currently, daily, flags, hourly, latitude, longitude, minutely,
/// offset, timezone.
pub open spec fn forecast_failure(json: Json) -> Option<Mismatch> {
    if json is Object {
        or_else(
            alerts_part_failure(json, "alerts"@),
            or_else(
                datapoint_part_failure(json, "currently"@),
                or_else(
                    datablock_part_failure(json, "daily"@),
                    or_else(
                        flags_part_failure(json, "flags"@),
                        or_else(
                            datablock_part_failure(json, "hourly"@),
                            or_else(
                                rule_failure(json, latitude_rule()),
                                or_else(
                                    rule_failure(json, longitude_rule()),
                                    or_else(
                                        datablock_part_failure(json, "minutely"@),
                                        or_else(
                                            rule_failure(json, offset_rule()),
                                            rule_failure(json, timezone_rule()),
                                        ),
                                    ),
                                ),
                            ),
                        ),
                    ),
                ),
            ),
        )
    } else {
        Some(Mismatch { expected: "an object"@, found: json })
    }
}

/// `point` holds what `json` reports, field by field, and nothing where
/// `json` reports nothing.
pub open spec fn datapoint_agrees(point: Datapoint, json: Json) -> bool {
    &&& point.apparent_temperature_max_time == field_unsigned(json, "apparentTemperatureMaxTime"@)
    &&& opt_numeral(point.apparent_temperature_max) == field_number(json, "apparentTemperatureMax"@)
    &&& point.apparent_temperature_min_time == field_unsigned(json, "apparentTemperatureMinTime"@)
    &&& opt_numeral(point.apparent_temperature_min) == field_number(json, "apparentTemperatureMin"@)
    &&& opt_numeral(point.apparent_temperature) == field_number(json, "apparentTemperature"@)
    &&& opt_numeral(point.cloud_cover_error) == field_number(json, "cloudCoverError"@)
    &&& opt_numeral(point.cloud_cover) == field_number(json, "cloudCover"@)
    &&& opt_numeral(point.dew_point_error) == field_number(json, "dewPointError"@)
    &&& opt_numeral(point.dew_point) == field_number(json, "dewPoint"@)
    &&& opt_numeral(point.humidity_error) == field_number(json, "humidityError"@)
    &&& opt_numeral(point.humidity) == field_number(json, "humidity"@)
    &&& point.icon == field_icon(json, "icon"@)
    &&& opt_numeral(point.moon_phase) == field_number(json, "moonPhase"@)
    &&& opt_numeral(point.nearest_storm_bearing) == field_number(json, "nearestStormBearing"@)
    &&& opt_numeral(point.nearest_storm_distance) == field_number(json, "nearestStormDistance"@)
    &&& opt_numeral(point.ozone_error) == field_number(json, "ozoneError"@)
    &&& opt_numeral(point.ozone) == field_number(json, "ozone"@)
    &&& opt_numeral(point.precip_accumulation_error) == field_number(json, "precipAccumulationError"@)
    &&& opt_numeral(point.precip_accumulation) == field_number(json, "precipAccumulation"@)
    &&& opt_numeral(point.precip_intensity_error) == field_number(json, "precipIntensityError"@)
    &&& opt_numeral(point.precip_intensity_max_error) == field_number(json, "precipIntensityMaxError"@)
    &&& point.precip_intensity_max_time == field_unsigned(json, "precipIntensityMaxTime"@)
    &&& opt_numeral(point.precip_intensity_max) == field_number(json, "precipIntensityMax"@)
    &&& opt_numeral(point.precip_intensity) == field_number(json, "precipIntensity"@)
    &&& opt_numeral(point.precip_probability_error) == field_number(json, "precipProbabilityError"@)
    &&& opt_numeral(point.precip_probability) == field_number(json, "precipProbability"@)
    &&& point.precip_type == field_precipitation(json, "precipType"@)
    &&& opt_numeral(point.pressure_error) == field_number(json, "pressureError"@)
    &&& opt_numeral(point.pressure) == field_number(json, "pressure"@)
    &&& opt_text(point.summary) == field_text(json, "summary"@)
    &&& point.sunrise_time == field_unsigned(json, "sunriseTime"@)
    &&& point.sunset_time == field_unsigned(json, "sunsetTime"@)
    &&& opt_numeral(point.temperature_low) == field_number(json, "temperatureLow"@)
    &&& point.temperature_low_time == field_unsigned(json, "temperatureLowTime"@)
    &&& opt_numeral(point.temperature_high) == field_number(json, "temperatureHigh"@)
    &&& point.temperature_high_time == field_unsigned(json, "temperatureHighTime"@)
    &&& opt_numeral(point.temperature_max_error) == field_number(json, "temperatureMaxError"@)
    &&& point.temperature_max_time == field_unsigned(json, "temperatureMaxTime"@)
    &&& opt_numeral(point.temperature_max) == field_number(json, "temperatureMax"@)
    &&& opt_numeral(point.temperature_min_error) == field_number(json, "temperatureMinError"@)
    &&& point.temperature_min_time == field_unsigned(json, "temperatureMinTime"@)
    &&& opt_numeral(point.temperature_min) == field_number(json, "temperatureMin"@)
    &&& opt_numeral(point.temperature_error) == field_number(json, "temperatureError"@)
    &&& opt_numeral(point.temperature) == field_number(json, "temperature"@)
    &&& Some(point.time) == field_unsigned(json, "time"@)
    &&& point.uv_index == field_unsigned(json, "uvIndex"@)
    &&& point.uv_index_time == field_unsigned(json, "uvIndexTime"@)
    &&& opt_numeral(point.visibility_error) == field_number(json, "visibilityError"@)
    &&& opt_numeral(point.visibility) == field_number(json, "visibility"@)
    &&& opt_numeral(point.wind_bearing_error) == field_number(json, "windBearingError"@)
    &&& opt_numeral(point.wind_bearing) == field_number(json, "windBearing"@)
    &&& opt_numeral(point.wind_gust) == field_number(json, "windGust"@)
    &&& point.wind_gust_time == field_unsigned(json, "windGustTime"@)
    &&& opt_numeral(point.wind_speed_error) == field_number(json, "windSpeedError"@)
    &&& opt_numeral(point.wind_speed) == field_number(json, "windSpeed"@)
}

/// `alert` holds what `json` reports, field by field.
pub open spec fn alert_agrees(alert: Alert, json: Json) -> bool {
    &&& Some(alert.expires) == field_unsigned(json, "expires"@)
    &&& Some(alert.description@) == field_text(json, "description"@)
    &&& Some(alert.title@) == field_text(json, "title"@)
    &&& Some(alert.uri@) == field_text(json, "uri"@)
    &&& Some(texts(alert.regions)) == field_texts(json, "regions"@)
    &&& Some(alert.time) == field_unsigned(json, "time"@)
    &&& Some(alert.severity) == field_severity(json, "severity"@)
}

/// `flags` holds what `json` reports, field by field, and nothing where
/// `json` reports nothing.
pub open spec fn flags_agrees(flags: Flags, json: Json) -> bool {
    &&& opt_texts(flags.darksky_stations) == field_texts(json, "darksky-stations"@)
    &&& opt_text(flags.darksky_unavailable) == field_text(json, "darksky-unavailable"@)
    &&& opt_texts(flags.datapoint_stations) == field_texts(json, "datapoint-stations"@)
    &&& opt_texts(flags.isd_stations) == field_texts(json, "isd-stations"@)
    &&& opt_texts(flags.lamp_stations) == field_texts(json, "lamp-stations"@)
    &&& opt_texts(flags.metar_stations) == field_texts(json, "metar-stations"@)
    &&& opt_text(flags.metno_license) == field_text(json, "metno-license"@)
    &&& opt_texts(flags.sources) == field_texts(json, "sources"@)
    &&& opt_text(flags.units) == field_text(json, "units"@)
}

/// `points` holds what the items of a list report, one data point for each
/// item, in order.
pub open spec fn points_agree(points: Seq<Datapoint>, items: Seq<Json>) -> bool {
    &&& points.len() == items.len()
    &&& forall|i: int| 0 <= i < points.len() ==> datapoint_agrees(#[trigger] points[i], items[i])
}

/// `alerts` holds what the items of a list report, one alert for each item,
/// in order.
pub open spec fn alerts_agree(alerts: Seq<Alert>, items: Seq<Json>) -> bool {
    &&& alerts.len() == items.len()
    &&& forall|i: int| 0 <= i < alerts.len() ==> alert_agrees(#[trigger] alerts[i], items[i])
}

/// `block` holds what `json` reports.
pub open spec fn datablock_agrees(block: Datablock, json: Json) -> bool {
    &&& match part(json, "data"@) {
        Some(found) => block.data is Some && items_of(found) is Some && points_agree(
            block.data->Some_0@,
            items_of(found)->Some_0,
        ),
        None => block.data is None,
    }
    &&& block.icon == field_icon(json, "icon"@)
    &&& opt_text(block.summary) == field_text(json, "summary"@)
}

/// `point` holds what the field `name` of `json` reports, and is `None`
/// where the field is missing or null.
pub open spec fn datapoint_part_agrees(point: Option<Datapoint>, json: Json, name: Seq<char>) -> bool {
    match part(json, name) {
        Some(found) => point is Some && datapoint_agrees(point->Some_0, found),
        None => point is None,
    }
}

/// `block` holds what the field `name` of `json` reports, and is `None`
/// where the field is missing or null.
pub open spec fn datablock_part_agrees(block: Option<Datablock>, json: Json, name: Seq<char>) -> bool {
    match part(json, name) {
        Some(found) => block is Some && datablock_agrees(block->Some_0, found),
        None => block is None,
    }
}

/// `flags` holds what the field `name` of `json` reports, and is `None`
/// where the field is missing or null.
pub open spec fn flags_part_agrees(flags: Option<Flags>, json: Json, name: Seq<char>) -> bool {
    match part(json, name) {
        Some(found) => flags is Some && flags_agrees(flags->Some_0, found),
        None => flags is None,
    }
}

/// `alerts` holds what the field `name` of `json` reports, and is empty
/// where the field is missing.
pub open spec fn alerts_part_agrees(alerts: Seq<Alert>, json: Json, name: Seq<char>) -> bool {
    match member(json, name) {
        Some(found) => items_of(found) is Some && alerts_agree(alerts, items_of(found)->Some_0),
        None => alerts.len() == 0,
    }
}

/// `forecast` holds what `json` reports: every field that is there, nothing
/// for a field that is missing, and no alerts where none are listed.
pub open spec fn forecast_agrees(forecast: Forecast, json: Json) -> bool {
    &&& alerts_part_agrees(forecast.alerts@, json, "alerts"@)
    &&& datapoint_part_agrees(forecast.currently, json, "currently"@)
    &&& datablock_part_agrees(forecast.daily, json, "daily"@)
    &&& flags_part_agrees(forecast.flags, json, "flags"@)
    &&& datablock_part_agrees(forecast.hourly, json, "hourly"@)
    &&& Some(numeral_of(forecast.latitude)) == field_number(json, "latitude"@)
    &&& Some(numeral_of(forecast.longitude)) == field_number(json, "longitude"@)
    &&& datablock_part_agrees(forecast.minutely, json, "minutely"@)
    &&& opt_numeral(forecast.offset) == field_number(json, "offset"@)
    &&& Some(forecast.timezone@) == field_text(json, "timezone"@)
}

/// A response that gives the place and its time zone is a forecast, whatever
/// else it leaves out: a field that may be missing is never asked for, and
/// the forecast read from the response holds nothing in its place.
pub proof fn lemma_required_fields_suffice(json: Json, forecast: Forecast)
    requires
        json is Object,
        field_number(json, "latitude"@) is Some,
        field_number(json, "longitude"@) is Some,
        field_text(json, "timezone"@) is Some,
        member(json, "alerts"@) is None,
        part(json, "currently"@) is None,
        part(json, "daily"@) is None,
        part(json, "flags"@) is None,
        part(json, "hourly"@) is None,
        part(json, "minutely"@) is None,
        part(json, "offset"@) is None,
    ensures
        forecast_failure(json) is None,
        forecast_agrees(forecast, json) ==> {
            &&& forecast.alerts@.len() == 0
            &&& forecast.currently is None
            &&& forecast.daily is None
            &&& forecast.flags is None
            &&& forecast.hourly is None
            &&& forecast.minutely is None
            &&& forecast.offset is None
        },
{
}

} // verus!
