//! The encoder: from a forecast back to the JSON value that spells it, and
//! the proof that the decoder reads every such value back as the same
//! forecast.
//!
//! An object lists every field of the shape by name; a field that is `None`
//! is spelled as null.

use crate::shape::{
    alert_agrees, alert_failure, alert_rules, alerts_agree, alerts_failure, datablock_agrees,
    datablock_failure, datablock_rules, datapoint_agrees, datapoint_failure, datapoint_rules,
    field_icon, field_number, field_precipitation, field_severity, field_text, field_texts,
    field_unsigned, flags_agrees, flags_failure, flags_rules, forecast_agrees, forecast_failure,
    lemma_first_some_none, opt_numeral, opt_text, opt_texts, points_agree, points_failure,
    rule_failure, rule_failures, texts, texts_of, Kind, Rule,
};
use crate::json::{
    array_value, json_of, jsons_of, member, no_members, nothing, null_value, number_value,
    numeral_of, object_value, put, text_value, unsigned_value, Json, Numeral,
};
use crate::models::{
    Alert, Datablock, Datapoint, Flags, Forecast, Icon, PrecipitationType, Severity,
};
use vstd::prelude::*;

verus! {

/// The JSON number `n`.
pub open spec fn unsigned_json(n: u64) -> Json {
    Json::Number(Numeral::Unsigned(n))
}

/// The JSON number `n`, or null where there is none.
pub open spec fn opt_unsigned_json(n: Option<u64>) -> Json {
    match n {
        Some(n) => unsigned_json(n),
        None => Json::Null,
    }
}

/// The JSON number that is `n`.
pub open spec fn number_json(n: Numeral) -> Json {
    Json::Number(n)
}

/// The JSON number that is `n`, or null where there is none.
pub open spec fn opt_number_json(n: Option<Numeral>) -> Json {
    match n {
        Some(n) => number_json(n),
        None => Json::Null,
    }
}

/// The JSON string `text`.
pub open spec fn text_json(text: Seq<char>) -> Json {
    Json::Text(text)
}

/// The JSON string `text`, or null where there is none.
pub open spec fn opt_text_json(text: Option<Seq<char>>) -> Json {
    match text {
        Some(t) => text_json(t),
        None => Json::Null,
    }
}

/// The JSON array of the strings `list`.
pub open spec fn texts_json(list: Seq<Seq<char>>) -> Json {
    Json::Array(Seq::new(list.len(), |i: int| Json::Text(list[i])))
}

/// The JSON array of the strings `list`, or null where there is none.
pub open spec fn opt_texts_json(list: Option<Seq<Seq<char>>>) -> Json {
    match list {
        Some(l) => texts_json(l),
        None => Json::Null,
    }
}

/// The JSON string that names `icon`.
pub open spec fn icon_json(icon: Icon) -> Json {
    Json::Text(icon.token())
}

/// The JSON string that names `icon`, or null where there is none.
pub open spec fn opt_icon_json(icon: Option<Icon>) -> Json {
    match icon {
        Some(i) => icon_json(i),
        None => Json::Null,
    }
}

/// The JSON string that names `kind`.
pub open spec fn precipitation_json(kind: PrecipitationType) -> Json {
    Json::Text(kind.token())
}

/// The JSON string that names `kind`, or null where there is none.
pub open spec fn opt_precipitation_json(kind: Option<PrecipitationType>) -> Json {
    match kind {
        Some(k) => precipitation_json(k),
        None => Json::Null,
    }
}

/// The JSON string that names `severity`.
pub open spec fn severity_json(severity: Severity) -> Json {
    Json::Text(severity.token())
}

/// The members of the object that spells `point`: every field by its name,
/// null where the field is `None`.
pub open spec fn datapoint_members(point: Datapoint) -> Map<Seq<char>, Json> {
    nothing()
        .insert("apparentTemperatureMaxTime"@, opt_unsigned_json(point.apparent_temperature_max_time))
        .insert("apparentTemperatureMax"@, opt_number_json(opt_numeral(point.apparent_temperature_max)))
        .insert("apparentTemperatureMinTime"@, opt_unsigned_json(point.apparent_temperature_min_time))
        .insert("apparentTemperatureMin"@, opt_number_json(opt_numeral(point.apparent_temperature_min)))
        .insert("apparentTemperature"@, opt_number_json(opt_numeral(point.apparent_temperature)))
        .insert("cloudCoverError"@, opt_number_json(opt_numeral(point.cloud_cover_error)))
        .insert("cloudCover"@, opt_number_json(opt_numeral(point.cloud_cover)))
        .insert("dewPointError"@, opt_number_json(opt_numeral(point.dew_point_error)))
        .insert("dewPoint"@, opt_number_json(opt_numeral(point.dew_point)))
        .insert("humidityError"@, opt_number_json(opt_numeral(point.humidity_error)))
        .insert("humidity"@, opt_number_json(opt_numeral(point.humidity)))
        .insert("icon"@, opt_icon_json(point.icon))
        .insert("moonPhase"@, opt_number_json(opt_numeral(point.moon_phase)))
        .insert("nearestStormBearing"@, opt_number_json(opt_numeral(point.nearest_storm_bearing)))
        .insert("nearestStormDistance"@, opt_number_json(opt_numeral(point.nearest_storm_distance)))
        .insert("ozoneError"@, opt_number_json(opt_numeral(point.ozone_error)))
        .insert("ozone"@, opt_number_json(opt_numeral(point.ozone)))
        .insert("precipAccumulationError"@, opt_number_json(opt_numeral(point.precip_accumulation_error)))
        .insert("precipAccumulation"@, opt_number_json(opt_numeral(point.precip_accumulation)))
        .insert("precipIntensityError"@, opt_number_json(opt_numeral(point.precip_intensity_error)))
        .insert("precipIntensityMaxError"@, opt_number_json(opt_numeral(point.precip_intensity_max_error)))
        .insert("precipIntensityMaxTime"@, opt_unsigned_json(point.precip_intensity_max_time))
        .insert("precipIntensityMax"@, opt_number_json(opt_numeral(point.precip_intensity_max)))
        .insert("precipIntensity"@, opt_number_json(opt_numeral(point.precip_intensity)))
        .insert("precipProbabilityError"@, opt_number_json(opt_numeral(point.precip_probability_error)))
        .insert("precipProbability"@, opt_number_json(opt_numeral(point.precip_probability)))
        .insert("precipType"@, opt_precipitation_json(point.precip_type))
        .insert("pressureError"@, opt_number_json(opt_numeral(point.pressure_error)))
        .insert("pressure"@, opt_number_json(opt_numeral(point.pressure)))
        .insert("summary"@, opt_text_json(opt_text(point.summary)))
        .insert("sunriseTime"@, opt_unsigned_json(point.sunrise_time))
        .insert("sunsetTime"@, opt_unsigned_json(point.sunset_time))
        .insert("temperatureLow"@, opt_number_json(opt_numeral(point.temperature_low)))
        .insert("temperatureLowTime"@, opt_unsigned_json(point.temperature_low_time))
        .insert("temperatureHigh"@, opt_number_json(opt_numeral(point.temperature_high)))
        .insert("temperatureHighTime"@, opt_unsigned_json(point.temperature_high_time))
        .insert("temperatureMaxError"@, opt_number_json(opt_numeral(point.temperature_max_error)))
        .insert("temperatureMaxTime"@, opt_unsigned_json(point.temperature_max_time))
        .insert("temperatureMax"@, opt_number_json(opt_numeral(point.temperature_max)))
        .insert("temperatureMinError"@, opt_number_json(opt_numeral(point.temperature_min_error)))
        .insert("temperatureMinTime"@, opt_unsigned_json(point.temperature_min_time))
        .insert("temperatureMin"@, opt_number_json(opt_numeral(point.temperature_min)))
        .insert("temperatureError"@, opt_number_json(opt_numeral(point.temperature_error)))
        .insert("temperature"@, opt_number_json(opt_numeral(point.temperature)))
        .insert("time"@, unsigned_json(point.time))
        .insert("uvIndex"@, opt_unsigned_json(point.uv_index))
        .insert("uvIndexTime"@, opt_unsigned_json(point.uv_index_time))
        .insert("visibilityError"@, opt_number_json(opt_numeral(point.visibility_error)))
        .insert("visibility"@, opt_number_json(opt_numeral(point.visibility)))
        .insert("windBearingError"@, opt_number_json(opt_numeral(point.wind_bearing_error)))
        .insert("windBearing"@, opt_number_json(opt_numeral(point.wind_bearing)))
        .insert("windGust"@, opt_number_json(opt_numeral(point.wind_gust)))
        .insert("windGustTime"@, opt_unsigned_json(point.wind_gust_time))
        .insert("windSpeedError"@, opt_number_json(opt_numeral(point.wind_speed_error)))
        .insert("windSpeed"@, opt_number_json(opt_numeral(point.wind_speed)))
}

/// The JSON object that spells `point`.
pub open spec fn datapoint_json(point: Datapoint) -> Json {
    Json::Object(datapoint_members(point))
}

/// The members of the object that spells `alert`.
pub open spec fn alert_members(alert: Alert) -> Map<Seq<char>, Json> {
    nothing()
        .insert("expires"@, unsigned_json(alert.expires))
        .insert("description"@, text_json(alert.description@))
        .insert("title"@, text_json(alert.title@))
        .insert("uri"@, text_json(alert.uri@))
        .insert("regions"@, texts_json(texts(alert.regions)))
        .insert("time"@, unsigned_json(alert.time))
        .insert("severity"@, severity_json(alert.severity))
}

/// The JSON object that spells `alert`.
pub open spec fn alert_json(alert: Alert) -> Json {
    Json::Object(alert_members(alert))
}

/// The members of the object that spells `flags`: every field by its name,
/// null where the field is `None`.
pub open spec fn flags_members(flags: Flags) -> Map<Seq<char>, Json> {
    nothing()
        .insert("darksky-stations"@, opt_texts_json(opt_texts(flags.darksky_stations)))
        .insert("darksky-unavailable"@, opt_text_json(opt_text(flags.darksky_unavailable)))
        .insert("datapoint-stations"@, opt_texts_json(opt_texts(flags.datapoint_stations)))
        .insert("isd-stations"@, opt_texts_json(opt_texts(flags.isd_stations)))
        .insert("lamp-stations"@, opt_texts_json(opt_texts(flags.lamp_stations)))
        .insert("metar-stations"@, opt_texts_json(opt_texts(flags.metar_stations)))
        .insert("metno-license"@, opt_text_json(opt_text(flags.metno_license)))
        .insert("sources"@, opt_texts_json(opt_texts(flags.sources)))
        .insert("units"@, opt_text_json(opt_text(flags.units)))
}

/// The JSON object that spells `flags`.
pub open spec fn flags_json(flags: Flags) -> Json {
    Json::Object(flags_members(flags))
}

/// A mark that tells the field names of the shape apart: the length of a
/// name with its first, its last and its sixth-last character.
spec fn mark(name: Seq<char>) -> (nat, char, char, char) {
    (name.len(), letter(name, 0), letter(name, name.len() - 1), letter(name, name.len() - 6))
}

/// The character of `name` at `place`, or a blank where there is none.
spec fn letter(name: Seq<char>, place: int) -> char {
    if 0 <= place < name.len() {
        name[place]
    } else {
        ' '
    }
}

/// Each field of a data point is found under its name in the object that
/// spells the data point.
proof fn lemma_datapoint_members(point: Datapoint)
    ensures
        member(Json::Object(datapoint_members(point)), "apparentTemperatureMaxTime"@) == Some(opt_unsigned_json(point.apparent_temperature_max_time)),
        member(Json::Object(datapoint_members(point)), "apparentTemperatureMax"@) == Some(opt_number_json(opt_numeral(point.apparent_temperature_max))),
        member(Json::Object(datapoint_members(point)), "apparentTemperatureMinTime"@) == Some(opt_unsigned_json(point.apparent_temperature_min_time)),
        member(Json::Object(datapoint_members(point)), "apparentTemperatureMin"@) == Some(opt_number_json(opt_numeral(point.apparent_temperature_min))),
        member(Json::Object(datapoint_members(point)), "apparentTemperature"@) == Some(opt_number_json(opt_numeral(point.apparent_temperature))),
        member(Json::Object(datapoint_members(point)), "cloudCoverError"@) == Some(opt_number_json(opt_numeral(point.cloud_cover_error))),
        member(Json::Object(datapoint_members(point)), "cloudCover"@) == Some(opt_number_json(opt_numeral(point.cloud_cover))),
        member(Json::Object(datapoint_members(point)), "dewPointError"@) == Some(opt_number_json(opt_numeral(point.dew_point_error))),
        member(Json::Object(datapoint_members(point)), "dewPoint"@) == Some(opt_number_json(opt_numeral(point.dew_point))),
        member(Json::Object(datapoint_members(point)), "humidityError"@) == Some(opt_number_json(opt_numeral(point.humidity_error))),
        member(Json::Object(datapoint_members(point)), "humidity"@) == Some(opt_number_json(opt_numeral(point.humidity))),
        member(Json::Object(datapoint_members(point)), "icon"@) == Some(opt_icon_json(point.icon)),
        member(Json::Object(datapoint_members(point)), "moonPhase"@) == Some(opt_number_json(opt_numeral(point.moon_phase))),
        member(Json::Object(datapoint_members(point)), "nearestStormBearing"@) == Some(opt_number_json(opt_numeral(point.nearest_storm_bearing))),
        member(Json::Object(datapoint_members(point)), "nearestStormDistance"@) == Some(opt_number_json(opt_numeral(point.nearest_storm_distance))),
        member(Json::Object(datapoint_members(point)), "ozoneError"@) == Some(opt_number_json(opt_numeral(point.ozone_error))),
        member(Json::Object(datapoint_members(point)), "ozone"@) == Some(opt_number_json(opt_numeral(point.ozone))),
        member(Json::Object(datapoint_members(point)), "precipAccumulationError"@) == Some(opt_number_json(opt_numeral(point.precip_accumulation_error))),
        member(Json::Object(datapoint_members(point)), "precipAccumulation"@) == Some(opt_number_json(opt_numeral(point.precip_accumulation))),
        member(Json::Object(datapoint_members(point)), "precipIntensityError"@) == Some(opt_number_json(opt_numeral(point.precip_intensity_error))),
        member(Json::Object(datapoint_members(point)), "precipIntensityMaxError"@) == Some(opt_number_json(opt_numeral(point.precip_intensity_max_error))),
        member(Json::Object(datapoint_members(point)), "precipIntensityMaxTime"@) == Some(opt_unsigned_json(point.precip_intensity_max_time)),
        member(Json::Object(datapoint_members(point)), "precipIntensityMax"@) == Some(opt_number_json(opt_numeral(point.precip_intensity_max))),
        member(Json::Object(datapoint_members(point)), "precipIntensity"@) == Some(opt_number_json(opt_numeral(point.precip_intensity))),
        member(Json::Object(datapoint_members(point)), "precipProbabilityError"@) == Some(opt_number_json(opt_numeral(point.precip_probability_error))),
        member(Json::Object(datapoint_members(point)), "precipProbability"@) == Some(opt_number_json(opt_numeral(point.precip_probability))),
        member(Json::Object(datapoint_members(point)), "precipType"@) == Some(opt_precipitation_json(point.precip_type)),
        member(Json::Object(datapoint_members(point)), "pressureError"@) == Some(opt_number_json(opt_numeral(point.pressure_error))),
        member(Json::Object(datapoint_members(point)), "pressure"@) == Some(opt_number_json(opt_numeral(point.pressure))),
        member(Json::Object(datapoint_members(point)), "summary"@) == Some(opt_text_json(opt_text(point.summary))),
        member(Json::Object(datapoint_members(point)), "sunriseTime"@) == Some(opt_unsigned_json(point.sunrise_time)),
        member(Json::Object(datapoint_members(point)), "sunsetTime"@) == Some(opt_unsigned_json(point.sunset_time)),
        member(Json::Object(datapoint_members(point)), "temperatureLow"@) == Some(opt_number_json(opt_numeral(point.temperature_low))),
        member(Json::Object(datapoint_members(point)), "temperatureLowTime"@) == Some(opt_unsigned_json(point.temperature_low_time)),
        member(Json::Object(datapoint_members(point)), "temperatureHigh"@) == Some(opt_number_json(opt_numeral(point.temperature_high))),
        member(Json::Object(datapoint_members(point)), "temperatureHighTime"@) == Some(opt_unsigned_json(point.temperature_high_time)),
        member(Json::Object(datapoint_members(point)), "temperatureMaxError"@) == Some(opt_number_json(opt_numeral(point.temperature_max_error))),
        member(Json::Object(datapoint_members(point)), "temperatureMaxTime"@) == Some(opt_unsigned_json(point.temperature_max_time)),
        member(Json::Object(datapoint_members(point)), "temperatureMax"@) == Some(opt_number_json(opt_numeral(point.temperature_max))),
        member(Json::Object(datapoint_members(point)), "temperatureMinError"@) == Some(opt_number_json(opt_numeral(point.temperature_min_error))),
        member(Json::Object(datapoint_members(point)), "temperatureMinTime"@) == Some(opt_unsigned_json(point.temperature_min_time)),
        member(Json::Object(datapoint_members(point)), "temperatureMin"@) == Some(opt_number_json(opt_numeral(point.temperature_min))),
        member(Json::Object(datapoint_members(point)), "temperatureError"@) == Some(opt_number_json(opt_numeral(point.temperature_error))),
        member(Json::Object(datapoint_members(point)), "temperature"@) == Some(opt_number_json(opt_numeral(point.temperature))),
        member(Json::Object(datapoint_members(point)), "time"@) == Some(unsigned_json(point.time)),
        member(Json::Object(datapoint_members(point)), "uvIndex"@) == Some(opt_unsigned_json(point.uv_index)),
        member(Json::Object(datapoint_members(point)), "uvIndexTime"@) == Some(opt_unsigned_json(point.uv_index_time)),
        member(Json::Object(datapoint_members(point)), "visibilityError"@) == Some(opt_number_json(opt_numeral(point.visibility_error))),
        member(Json::Object(datapoint_members(point)), "visibility"@) == Some(opt_number_json(opt_numeral(point.visibility))),
        member(Json::Object(datapoint_members(point)), "windBearingError"@) == Some(opt_number_json(opt_numeral(point.wind_bearing_error))),
        member(Json::Object(datapoint_members(point)), "windBearing"@) == Some(opt_number_json(opt_numeral(point.wind_bearing))),
        member(Json::Object(datapoint_members(point)), "windGust"@) == Some(opt_number_json(opt_numeral(point.wind_gust))),
        member(Json::Object(datapoint_members(point)), "windGustTime"@) == Some(opt_unsigned_json(point.wind_gust_time)),
        member(Json::Object(datapoint_members(point)), "windSpeedError"@) == Some(opt_number_json(opt_numeral(point.wind_speed_error))),
        member(Json::Object(datapoint_members(point)), "windSpeed"@) == Some(opt_number_json(opt_numeral(point.wind_speed))),
{
    reveal_strlit("apparentTemperatureMaxTime");
    reveal_strlit("apparentTemperatureMax");
    reveal_strlit("apparentTemperatureMinTime");
    reveal_strlit("apparentTemperatureMin");
    reveal_strlit("apparentTemperature");
    reveal_strlit("cloudCoverError");
    reveal_strlit("cloudCover");
    reveal_strlit("dewPointError");
    reveal_strlit("dewPoint");
    reveal_strlit("humidityError");
    reveal_strlit("humidity");
    reveal_strlit("icon");
    reveal_strlit("moonPhase");
    reveal_strlit("nearestStormBearing");
    reveal_strlit("nearestStormDistance");
    reveal_strlit("ozoneError");
    reveal_strlit("ozone");
    reveal_strlit("precipAccumulationError");
    reveal_strlit("precipAccumulation");
    reveal_strlit("precipIntensityError");
    reveal_strlit("precipIntensityMaxError");
    reveal_strlit("precipIntensityMaxTime");
    reveal_strlit("precipIntensityMax");
    reveal_strlit("precipIntensity");
    reveal_strlit("precipProbabilityError");
    reveal_strlit("precipProbability");
    reveal_strlit("precipType");
    reveal_strlit("pressureError");
    reveal_strlit("pressure");
    reveal_strlit("summary");
    reveal_strlit("sunriseTime");
    reveal_strlit("sunsetTime");
    reveal_strlit("temperatureLow");
    reveal_strlit("temperatureLowTime");
    reveal_strlit("temperatureHigh");
    reveal_strlit("temperatureHighTime");
    reveal_strlit("temperatureMaxError");
    reveal_strlit("temperatureMaxTime");
    reveal_strlit("temperatureMax");
    reveal_strlit("temperatureMinError");
    reveal_strlit("temperatureMinTime");
    reveal_strlit("temperatureMin");
    reveal_strlit("temperatureError");
    reveal_strlit("temperature");
    reveal_strlit("time");
    reveal_strlit("uvIndex");
    reveal_strlit("uvIndexTime");
    reveal_strlit("visibilityError");
    reveal_strlit("visibility");
    reveal_strlit("windBearingError");
    reveal_strlit("windBearing");
    reveal_strlit("windGust");
    reveal_strlit("windGustTime");
    reveal_strlit("windSpeedError");
    reveal_strlit("windSpeed");
    assert(mark("apparentTemperatureMaxTime"@) == (26nat, 'a', 'e', 'a'));
    assert(mark("apparentTemperatureMax"@) == (22nat, 'a', 'x', 'u'));
    assert(mark("apparentTemperatureMinTime"@) == (26nat, 'a', 'e', 'i'));
    assert(mark("apparentTemperatureMin"@) == (22nat, 'a', 'n', 'u'));
    assert(mark("apparentTemperature"@) == (19nat, 'a', 'e', 'r'));
    assert(mark("cloudCoverError"@) == (15nat, 'c', 'r', 'r'));
    assert(mark("cloudCover"@) == (10nat, 'c', 'r', 'd'));
    assert(mark("dewPointError"@) == (13nat, 'd', 'r', 't'));
    assert(mark("dewPoint"@) == (8nat, 'd', 't', 'w'));
    assert(mark("humidityError"@) == (13nat, 'h', 'r', 'y'));
    assert(mark("humidity"@) == (8nat, 'h', 'y', 'm'));
    assert(mark("icon"@) == (4nat, 'i', 'n', ' '));
    assert(mark("moonPhase"@) == (9nat, 'm', 'e', 'n'));
    assert(mark("nearestStormBearing"@) == (19nat, 'n', 'g', 'e'));
    assert(mark("nearestStormDistance"@) == (20nat, 'n', 'e', 's'));
    assert(mark("ozoneError"@) == (10nat, 'o', 'r', 'e'));
    assert(mark("ozone"@) == (5nat, 'o', 'e', ' '));
    assert(mark("precipAccumulationError"@) == (23nat, 'p', 'r', 'n'));
    assert(mark("precipAccumulation"@) == (18nat, 'p', 'n', 'l'));
    assert(mark("precipIntensityError"@) == (20nat, 'p', 'r', 'y'));
    assert(mark("precipIntensityMaxError"@) == (23nat, 'p', 'r', 'x'));
    assert(mark("precipIntensityMaxTime"@) == (22nat, 'p', 'e', 'a'));
    assert(mark("precipIntensityMax"@) == (18nat, 'p', 'x', 'i'));
    assert(mark("precipIntensity"@) == (15nat, 'p', 'y', 'e'));
    assert(mark("precipProbabilityError"@) == (22nat, 'p', 'r', 'y'));
    assert(mark("precipProbability"@) == (17nat, 'p', 'y', 'b'));
    assert(mark("precipType"@) == (10nat, 'p', 'e', 'i'));
    assert(mark("pressureError"@) == (13nat, 'p', 'r', 'e'));
    assert(mark("pressure"@) == (8nat, 'p', 'e', 'e'));
    assert(mark("summary"@) == (7nat, 's', 'y', 'u'));
    assert(mark("sunriseTime"@) == (11nat, 's', 'e', 's'));
    assert(mark("sunsetTime"@) == (10nat, 's', 'e', 'e'));
    assert(mark("temperatureLow"@) == (14nat, 't', 'w', 'u'));
    assert(mark("temperatureLowTime"@) == (18nat, 't', 'e', 'o'));
    assert(mark("temperatureHigh"@) == (15nat, 't', 'h', 'r'));
    assert(mark("temperatureHighTime"@) == (19nat, 't', 'e', 'g'));
    assert(mark("temperatureMaxError"@) == (19nat, 't', 'r', 'x'));
    assert(mark("temperatureMaxTime"@) == (18nat, 't', 'e', 'a'));
    assert(mark("temperatureMax"@) == (14nat, 't', 'x', 'u'));
    assert(mark("temperatureMinError"@) == (19nat, 't', 'r', 'n'));
    assert(mark("temperatureMinTime"@) == (18nat, 't', 'e', 'i'));
    assert(mark("temperatureMin"@) == (14nat, 't', 'n', 'u'));
    assert(mark("temperatureError"@) == (16nat, 't', 'r', 'e'));
    assert(mark("temperature"@) == (11nat, 't', 'e', 'r'));
    assert(mark("time"@) == (4nat, 't', 'e', ' '));
    assert(mark("uvIndex"@) == (7nat, 'u', 'x', 'v'));
    assert(mark("uvIndexTime"@) == (11nat, 'u', 'e', 'e'));
    assert(mark("visibilityError"@) == (15nat, 'v', 'r', 'y'));
    assert(mark("visibility"@) == (10nat, 'v', 'y', 'b'));
    assert(mark("windBearingError"@) == (16nat, 'w', 'r', 'g'));
    assert(mark("windBearing"@) == (11nat, 'w', 'g', 'e'));
    assert(mark("windGust"@) == (8nat, 'w', 't', 'n'));
    assert(mark("windGustTime"@) == (12nat, 'w', 'e', 's'));
    assert(mark("windSpeedError"@) == (14nat, 'w', 'r', 'd'));
    assert(mark("windSpeed"@) == (9nat, 'w', 'd', 'd'));
}

/// Each field of an alert is found under its name in the object that spells
/// the alert.
proof fn lemma_alert_members(alert: Alert)
    ensures
        member(Json::Object(alert_members(alert)), "expires"@) == Some(unsigned_json(alert.expires)),
        member(Json::Object(alert_members(alert)), "description"@) == Some(text_json(alert.description@)),
        member(Json::Object(alert_members(alert)), "title"@) == Some(text_json(alert.title@)),
        member(Json::Object(alert_members(alert)), "uri"@) == Some(text_json(alert.uri@)),
        member(Json::Object(alert_members(alert)), "regions"@) == Some(texts_json(texts(alert.regions))),
        member(Json::Object(alert_members(alert)), "time"@) == Some(unsigned_json(alert.time)),
        member(Json::Object(alert_members(alert)), "severity"@) == Some(severity_json(alert.severity)),
{
    reveal_strlit("expires");
    reveal_strlit("description");
    reveal_strlit("title");
    reveal_strlit("uri");
    reveal_strlit("regions");
    reveal_strlit("time");
    reveal_strlit("severity");
    assert(mark("expires"@) == (7nat, 'e', 's', 'x'));
    assert(mark("description"@) == (11nat, 'd', 'n', 'i'));
    assert(mark("title"@) == (5nat, 't', 'e', ' '));
    assert(mark("uri"@) == (3nat, 'u', 'i', ' '));
    assert(mark("regions"@) == (7nat, 'r', 's', 'e'));
    assert(mark("time"@) == (4nat, 't', 'e', ' '));
    assert(mark("severity"@) == (8nat, 's', 'y', 'v'));
}

/// Each field of the metadata is found under its name in the object that
/// spells the metadata.
proof fn lemma_flags_members(flags: Flags)
    ensures
        member(Json::Object(flags_members(flags)), "darksky-stations"@) == Some(opt_texts_json(opt_texts(flags.darksky_stations))),
        member(Json::Object(flags_members(flags)), "darksky-unavailable"@) == Some(opt_text_json(opt_text(flags.darksky_unavailable))),
        member(Json::Object(flags_members(flags)), "datapoint-stations"@) == Some(opt_texts_json(opt_texts(flags.datapoint_stations))),
        member(Json::Object(flags_members(flags)), "isd-stations"@) == Some(opt_texts_json(opt_texts(flags.isd_stations))),
        member(Json::Object(flags_members(flags)), "lamp-stations"@) == Some(opt_texts_json(opt_texts(flags.lamp_stations))),
        member(Json::Object(flags_members(flags)), "metar-stations"@) == Some(opt_texts_json(opt_texts(flags.metar_stations))),
        member(Json::Object(flags_members(flags)), "metno-license"@) == Some(opt_text_json(opt_text(flags.metno_license))),
        member(Json::Object(flags_members(flags)), "sources"@) == Some(opt_texts_json(opt_texts(flags.sources))),
        member(Json::Object(flags_members(flags)), "units"@) == Some(opt_text_json(opt_text(flags.units))),
{
    reveal_strlit("darksky-stations");
    reveal_strlit("darksky-unavailable");
    reveal_strlit("datapoint-stations");
    reveal_strlit("isd-stations");
    reveal_strlit("lamp-stations");
    reveal_strlit("metar-stations");
    reveal_strlit("metno-license");
    reveal_strlit("sources");
    reveal_strlit("units");
    assert(mark("darksky-stations"@) == (16nat, 'd', 's', 'a'));
    assert(mark("darksky-unavailable"@) == (19nat, 'd', 'e', 'i'));
    assert(mark("datapoint-stations"@) == (18nat, 'd', 's', 'a'));
    assert(mark("isd-stations"@) == (12nat, 'i', 's', 'a'));
    assert(mark("lamp-stations"@) == (13nat, 'l', 's', 'a'));
    assert(mark("metar-stations"@) == (14nat, 'm', 's', 'a'));
    assert(mark("metno-license"@) == (13nat, 'm', 'e', 'i'));
    assert(mark("sources"@) == (7nat, 's', 's', 'o'));
    assert(mark("units"@) == (5nat, 'u', 's', ' '));
}

/// The JSON array that spells `points`, item by item.
pub open spec fn points_json(points: Seq<Datapoint>) -> Json {
    Json::Array(Seq::new(points.len(), |i: int| datapoint_json(points[i])))
}

/// The JSON array that spells `points`, or null where there is no list.
pub open spec fn opt_points_json(points: Option<Vec<Datapoint>>) -> Json {
    match points {
        Some(p) => points_json(p@),
        None => Json::Null,
    }
}

/// The JSON array that spells `alerts`, item by item.
pub open spec fn alerts_json(alerts: Seq<Alert>) -> Json {
    Json::Array(Seq::new(alerts.len(), |i: int| alert_json(alerts[i])))
}

/// The members of the object that spells `block`.
pub open spec fn datablock_members(block: Datablock) -> Map<Seq<char>, Json> {
    nothing()
        .insert("data"@, opt_points_json(block.data))
        .insert("icon"@, opt_icon_json(block.icon))
        .insert("summary"@, opt_text_json(opt_text(block.summary)))
}

/// The JSON object that spells `block`.
pub open spec fn datablock_json(block: Datablock) -> Json {
    Json::Object(datablock_members(block))
}

/// The JSON object that spells `point`, or null where there is none.
pub open spec fn opt_datapoint_json(point: Option<Datapoint>) -> Json {
    match point {
        Some(p) => datapoint_json(p),
        None => Json::Null,
    }
}

/// The JSON object that spells `block`, or null where there is none.
pub open spec fn opt_datablock_json(block: Option<Datablock>) -> Json {
    match block {
        Some(b) => datablock_json(b),
        None => Json::Null,
    }
}

/// The JSON object that spells `flags`, or null where there is none.
pub open spec fn opt_flags_json(flags: Option<Flags>) -> Json {
    match flags {
        Some(f) => flags_json(f),
        None => Json::Null,
    }
}

/// The members of the object that spells `forecast`.
pub open spec fn forecast_members(forecast: Forecast) -> Map<Seq<char>, Json> {
    nothing()
        .insert("alerts"@, alerts_json(forecast.alerts@))
        .insert("currently"@, opt_datapoint_json(forecast.currently))
        .insert("daily"@, opt_datablock_json(forecast.daily))
        .insert("flags"@, opt_flags_json(forecast.flags))
        .insert("hourly"@, opt_datablock_json(forecast.hourly))
        .insert("latitude"@, number_json(numeral_of(forecast.latitude)))
        .insert("longitude"@, number_json(numeral_of(forecast.longitude)))
        .insert("minutely"@, opt_datablock_json(forecast.minutely))
        .insert("offset"@, opt_number_json(opt_numeral(forecast.offset)))
        .insert("timezone"@, text_json(forecast.timezone@))
}

/// The JSON object that spells `forecast`.
pub open spec fn forecast_json(forecast: Forecast) -> Json {
    Json::Object(forecast_members(forecast))
}

/// Each field of a block of data is found under its name in the object
/// that spells the block.
proof fn lemma_datablock_members(block: Datablock)
    ensures
        member(datablock_json(block), "data"@) == Some(opt_points_json(block.data)),
        member(datablock_json(block), "icon"@) == Some(opt_icon_json(block.icon)),
        member(datablock_json(block), "summary"@) == Some(opt_text_json(opt_text(block.summary))),
{
    reveal_strlit("data");
    reveal_strlit("icon");
    reveal_strlit("summary");
    assert(mark("data"@) == (4nat, 'd', 'a', ' '));
    assert(mark("icon"@) == (4nat, 'i', 'n', ' '));
    assert(mark("summary"@) == (7nat, 's', 'y', 'u'));
}

/// Each field of a forecast is found under its name in the object that
/// spells the forecast.
proof fn lemma_forecast_members(forecast: Forecast)
    ensures
        member(forecast_json(forecast), "alerts"@) == Some(alerts_json(forecast.alerts@)),
        member(forecast_json(forecast), "currently"@) == Some(
            opt_datapoint_json(forecast.currently),
        ),
        member(forecast_json(forecast), "daily"@) == Some(opt_datablock_json(forecast.daily)),
        member(forecast_json(forecast), "flags"@) == Some(opt_flags_json(forecast.flags)),
        member(forecast_json(forecast), "hourly"@) == Some(opt_datablock_json(forecast.hourly)),
        member(forecast_json(forecast), "latitude"@) == Some(
            number_json(numeral_of(forecast.latitude)),
        ),
        member(forecast_json(forecast), "longitude"@) == Some(
            number_json(numeral_of(forecast.longitude)),
        ),
        member(forecast_json(forecast), "minutely"@) == Some(
            opt_datablock_json(forecast.minutely),
        ),
        member(forecast_json(forecast), "offset"@) == Some(
            opt_number_json(opt_numeral(forecast.offset)),
        ),
        member(forecast_json(forecast), "timezone"@) == Some(text_json(forecast.timezone@)),
{
    reveal_strlit("alerts");
    reveal_strlit("currently");
    reveal_strlit("daily");
    reveal_strlit("flags");
    reveal_strlit("hourly");
    reveal_strlit("latitude");
    reveal_strlit("longitude");
    reveal_strlit("minutely");
    reveal_strlit("offset");
    reveal_strlit("timezone");
    assert(mark("alerts"@) == (6nat, 'a', 's', 'a'));
    assert(mark("currently"@) == (9nat, 'c', 'y', 'r'));
    assert(mark("daily"@) == (5nat, 'd', 'y', ' '));
    assert(mark("flags"@) == (5nat, 'f', 's', ' '));
    assert(mark("hourly"@) == (6nat, 'h', 'y', 'h'));
    assert(mark("latitude"@) == (8nat, 'l', 'e', 't'));
    assert(mark("longitude"@) == (9nat, 'l', 'e', 'g'));
    assert(mark("minutely"@) == (8nat, 'm', 'y', 'n'));
    assert(mark("offset"@) == (6nat, 'o', 't', 'o'));
    assert(mark("timezone"@) == (8nat, 't', 'e', 'm'));
}

/// A list of strings is read back from the array that spells it.
pub proof fn lemma_texts_read_back(list: Seq<Seq<char>>)
    ensures
        texts_of(texts_json(list)) == Some(list),
{
    let items = Seq::new(list.len(), |i: int| Json::Text(list[i]));
}

/// An unsigned integer that may be missing, spelled under `name`, obeys
/// the rule for it and is read back.
proof fn lemma_opt_unsigned_member(json: Json, name: &'static str, n: Option<u64>)
    requires
        member(json, name@) == Some(opt_unsigned_json(n)),
    ensures
        rule_failure(json, Rule { name, kind: Kind::Unsigned, required: false }) is None,
        field_unsigned(json, name@) == n,
{
}

/// An unsigned integer spelled under `name` obeys the rule for it and is
/// read back.
proof fn lemma_unsigned_member(json: Json, name: &'static str, n: u64)
    requires
        member(json, name@) == Some(unsigned_json(n)),
    ensures
        rule_failure(json, Rule { name, kind: Kind::Unsigned, required: true }) is None,
        field_unsigned(json, name@) == Some(n),
{
}

/// A number that may be missing, spelled under `name`, obeys the rule for
/// it and is read back.
proof fn lemma_opt_number_member(json: Json, name: &'static str, n: Option<Numeral>)
    requires
        member(json, name@) == Some(opt_number_json(n)),
    ensures
        rule_failure(json, Rule { name, kind: Kind::Number, required: false }) is None,
        field_number(json, name@) == n,
{
}

/// A number spelled under `name` obeys the rule for it and is read back.
proof fn lemma_number_member(json: Json, name: &'static str, n: Numeral)
    requires
        member(json, name@) == Some(number_json(n)),
    ensures
        rule_failure(json, Rule { name, kind: Kind::Number, required: true }) is None,
        field_number(json, name@) == Some(n),
{
}

/// A text that may be missing, spelled under `name`, obeys the rule for it
/// and is read back.
proof fn lemma_opt_text_member(json: Json, name: &'static str, text: Option<Seq<char>>)
    requires
        member(json, name@) == Some(opt_text_json(text)),
    ensures
        rule_failure(json, Rule { name, kind: Kind::Text, required: false }) is None,
        field_text(json, name@) == text,
{
}

/// A text spelled under `name` obeys the rule for it and is read back.
proof fn lemma_text_member(json: Json, name: &'static str, text: Seq<char>)
    requires
        member(json, name@) == Some(text_json(text)),
    ensures
        rule_failure(json, Rule { name, kind: Kind::Text, required: true }) is None,
        field_text(json, name@) == Some(text),
{
}

/// A list of texts that may be missing, spelled under `name`, obeys the
/// rule for it and is read back.
proof fn lemma_opt_texts_member(json: Json, name: &'static str, list: Option<Seq<Seq<char>>>)
    requires
        member(json, name@) == Some(opt_texts_json(list)),
    ensures
        rule_failure(json, Rule { name, kind: Kind::TextList, required: false }) is None,
        field_texts(json, name@) == list,
{
    if list is Some {
        lemma_texts_read_back(list->Some_0);
    }
}

/// A list of texts spelled under `name` obeys the rule for it and is read
/// back.
proof fn lemma_texts_member(json: Json, name: &'static str, list: Seq<Seq<char>>)
    requires
        member(json, name@) == Some(texts_json(list)),
    ensures
        rule_failure(json, Rule { name, kind: Kind::TextList, required: true }) is None,
        field_texts(json, name@) == Some(list),
{
    lemma_texts_read_back(list);
}

/// An icon that may be missing, spelled under `name`, obeys the rule for
/// it and is read back.
proof fn lemma_opt_icon_member(json: Json, name: &'static str, icon: Option<Icon>)
    requires
        member(json, name@) == Some(opt_icon_json(icon)),
    ensures
        rule_failure(json, Rule { name, kind: Kind::Icon, required: false }) is None,
        field_icon(json, name@) == icon,
{
    if icon is Some {
        icon->Some_0.lemma_token_reads_back();
    }
}

/// A kind of precipitation that may be missing, spelled under `name`,
/// obeys the rule for it and is read back.
proof fn lemma_opt_precipitation_member(
    json: Json,
    name: &'static str,
    kind: Option<PrecipitationType>,
)
    requires
        member(json, name@) == Some(opt_precipitation_json(kind)),
    ensures
        rule_failure(json, Rule { name, kind: Kind::Precipitation, required: false }) is None,
        field_precipitation(json, name@) == kind,
{
    if kind is Some {
        kind->Some_0.lemma_token_reads_back();
    }
}

/// A severity spelled under `name` obeys the rule for it and is read back.
proof fn lemma_severity_member(json: Json, name: &'static str, severity: Severity)
    requires
        member(json, name@) == Some(severity_json(severity)),
    ensures
        rule_failure(json, Rule { name, kind: Kind::Severity, required: true }) is None,
        field_severity(json, name@) == Some(severity),
{
    severity.lemma_token_reads_back();
}

/// The object that spells a data point has the shape of one, and reports
/// what the data point holds.
pub proof fn lemma_datapoint_reads_back(point: Datapoint)
    ensures
        datapoint_failure(datapoint_json(point)) is None,
        datapoint_agrees(point, datapoint_json(point)),
{
    let json = datapoint_json(point);
    let rules = datapoint_rules();
    lemma_datapoint_members(point);
    lemma_opt_unsigned_member(json, "apparentTemperatureMaxTime", point.apparent_temperature_max_time);
    lemma_opt_number_member(json, "apparentTemperatureMax", opt_numeral(point.apparent_temperature_max));
    lemma_opt_unsigned_member(json, "apparentTemperatureMinTime", point.apparent_temperature_min_time);
    lemma_opt_number_member(json, "apparentTemperatureMin", opt_numeral(point.apparent_temperature_min));
    lemma_opt_number_member(json, "apparentTemperature", opt_numeral(point.apparent_temperature));
    lemma_opt_number_member(json, "cloudCoverError", opt_numeral(point.cloud_cover_error));
    lemma_opt_number_member(json, "cloudCover", opt_numeral(point.cloud_cover));
    lemma_opt_number_member(json, "dewPointError", opt_numeral(point.dew_point_error));
    lemma_opt_number_member(json, "dewPoint", opt_numeral(point.dew_point));
    lemma_opt_number_member(json, "humidityError", opt_numeral(point.humidity_error));
    lemma_opt_number_member(json, "humidity", opt_numeral(point.humidity));
    lemma_opt_icon_member(json, "icon", point.icon);
    lemma_opt_number_member(json, "moonPhase", opt_numeral(point.moon_phase));
    lemma_opt_number_member(json, "nearestStormBearing", opt_numeral(point.nearest_storm_bearing));
    lemma_opt_number_member(json, "nearestStormDistance", opt_numeral(point.nearest_storm_distance));
    lemma_opt_number_member(json, "ozoneError", opt_numeral(point.ozone_error));
    lemma_opt_number_member(json, "ozone", opt_numeral(point.ozone));
    lemma_opt_number_member(json, "precipAccumulationError", opt_numeral(point.precip_accumulation_error));
    lemma_opt_number_member(json, "precipAccumulation", opt_numeral(point.precip_accumulation));
    lemma_opt_number_member(json, "precipIntensityError", opt_numeral(point.precip_intensity_error));
    lemma_opt_number_member(json, "precipIntensityMaxError", opt_numeral(point.precip_intensity_max_error));
    lemma_opt_unsigned_member(json, "precipIntensityMaxTime", point.precip_intensity_max_time);
    lemma_opt_number_member(json, "precipIntensityMax", opt_numeral(point.precip_intensity_max));
    lemma_opt_number_member(json, "precipIntensity", opt_numeral(point.precip_intensity));
    lemma_opt_number_member(json, "precipProbabilityError", opt_numeral(point.precip_probability_error));
    lemma_opt_number_member(json, "precipProbability", opt_numeral(point.precip_probability));
    lemma_opt_precipitation_member(json, "precipType", point.precip_type);
    lemma_opt_number_member(json, "pressureError", opt_numeral(point.pressure_error));
    lemma_opt_number_member(json, "pressure", opt_numeral(point.pressure));
    lemma_opt_text_member(json, "summary", opt_text(point.summary));
    lemma_opt_unsigned_member(json, "sunriseTime", point.sunrise_time);
    lemma_opt_unsigned_member(json, "sunsetTime", point.sunset_time);
    lemma_opt_number_member(json, "temperatureLow", opt_numeral(point.temperature_low));
    lemma_opt_unsigned_member(json, "temperatureLowTime", point.temperature_low_time);
    lemma_opt_number_member(json, "temperatureHigh", opt_numeral(point.temperature_high));
    lemma_opt_unsigned_member(json, "temperatureHighTime", point.temperature_high_time);
    lemma_opt_number_member(json, "temperatureMaxError", opt_numeral(point.temperature_max_error));
    lemma_opt_unsigned_member(json, "temperatureMaxTime", point.temperature_max_time);
    lemma_opt_number_member(json, "temperatureMax", opt_numeral(point.temperature_max));
    lemma_opt_number_member(json, "temperatureMinError", opt_numeral(point.temperature_min_error));
    lemma_opt_unsigned_member(json, "temperatureMinTime", point.temperature_min_time);
    lemma_opt_number_member(json, "temperatureMin", opt_numeral(point.temperature_min));
    lemma_opt_number_member(json, "temperatureError", opt_numeral(point.temperature_error));
    lemma_opt_number_member(json, "temperature", opt_numeral(point.temperature));
    lemma_unsigned_member(json, "time", point.time);
    lemma_opt_unsigned_member(json, "uvIndex", point.uv_index);
    lemma_opt_unsigned_member(json, "uvIndexTime", point.uv_index_time);
    lemma_opt_number_member(json, "visibilityError", opt_numeral(point.visibility_error));
    lemma_opt_number_member(json, "visibility", opt_numeral(point.visibility));
    lemma_opt_number_member(json, "windBearingError", opt_numeral(point.wind_bearing_error));
    lemma_opt_number_member(json, "windBearing", opt_numeral(point.wind_bearing));
    lemma_opt_number_member(json, "windGust", opt_numeral(point.wind_gust));
    lemma_opt_unsigned_member(json, "windGustTime", point.wind_gust_time);
    lemma_opt_number_member(json, "windSpeedError", opt_numeral(point.wind_speed_error));
    lemma_opt_number_member(json, "windSpeed", opt_numeral(point.wind_speed));
    lemma_first_some_none(rule_failures(json, rules));
}

/// The object that spells an alert has the shape of one, and reports what
/// the alert holds.
pub proof fn lemma_alert_reads_back(alert: Alert)
    ensures
        alert_failure(alert_json(alert)) is None,
        alert_agrees(alert, alert_json(alert)),
{
    let json = alert_json(alert);
    let rules = alert_rules();
    lemma_alert_members(alert);
    lemma_unsigned_member(json, "expires", alert.expires);
    lemma_text_member(json, "description", alert.description@);
    lemma_text_member(json, "title", alert.title@);
    lemma_text_member(json, "uri", alert.uri@);
    lemma_texts_member(json, "regions", texts(alert.regions));
    lemma_unsigned_member(json, "time", alert.time);
    lemma_severity_member(json, "severity", alert.severity);
    lemma_first_some_none(rule_failures(json, rules));
}

/// The object that spells the metadata of a response has the shape of it,
/// and reports what the metadata holds.
pub proof fn lemma_flags_reads_back(flags: Flags)
    ensures
        flags_failure(flags_json(flags)) is None,
        flags_agrees(flags, flags_json(flags)),
{
    let json = flags_json(flags);
    let rules = flags_rules();
    lemma_flags_members(flags);
    lemma_opt_texts_member(json, "darksky-stations", opt_texts(flags.darksky_stations));
    lemma_opt_text_member(json, "darksky-unavailable", opt_text(flags.darksky_unavailable));
    lemma_opt_texts_member(json, "datapoint-stations", opt_texts(flags.datapoint_stations));
    lemma_opt_texts_member(json, "isd-stations", opt_texts(flags.isd_stations));
    lemma_opt_texts_member(json, "lamp-stations", opt_texts(flags.lamp_stations));
    lemma_opt_texts_member(json, "metar-stations", opt_texts(flags.metar_stations));
    lemma_opt_text_member(json, "metno-license", opt_text(flags.metno_license));
    lemma_opt_texts_member(json, "sources", opt_texts(flags.sources));
    lemma_opt_text_member(json, "units", opt_text(flags.units));
    lemma_first_some_none(rule_failures(json, rules));
}

/// The array that spells a list of data points is a list of data points,
/// and reports what they hold.
pub proof fn lemma_points_read_back(points: Seq<Datapoint>)
    ensures
        points_failure(points_json(points)) is None,
        points_agree(points, points_json(points)->Array_0),
{
    let items = points_json(points)->Array_0;
    let failures = Seq::new(items.len(), |i: int| datapoint_failure(items[i]));
    assert forall|k: int| 0 <= k < failures.len() implies failures[k] is None by {
        lemma_datapoint_reads_back(points[k]);
    }
    lemma_first_some_none(failures);
    assert forall|i: int| 0 <= i < points.len() implies datapoint_agrees(
        #[trigger] points[i],
        items[i],
    ) by {
        lemma_datapoint_reads_back(points[i]);
    }
}

/// The array that spells a list of alerts is a list of alerts, and reports
/// what they hold.
pub proof fn lemma_alerts_read_back(alerts: Seq<Alert>)
    ensures
        alerts_failure(alerts_json(alerts)) is None,
        alerts_agree(alerts, alerts_json(alerts)->Array_0),
{
    let items = alerts_json(alerts)->Array_0;
    let failures = Seq::new(items.len(), |i: int| alert_failure(items[i]));
    assert forall|k: int| 0 <= k < failures.len() implies failures[k] is None by {
        lemma_alert_reads_back(alerts[k]);
    }
    lemma_first_some_none(failures);
    assert forall|i: int| 0 <= i < alerts.len() implies alert_agrees(
        #[trigger] alerts[i],
        items[i],
    ) by {
        lemma_alert_reads_back(alerts[i]);
    }
}

/// The object that spells a block of data has the shape of one, and
/// reports what the block holds.
pub proof fn lemma_datablock_reads_back(block: Datablock)
    ensures
        datablock_failure(datablock_json(block)) is None,
        datablock_agrees(block, datablock_json(block)),
{
    let json = datablock_json(block);
    let rules = datablock_rules();
    lemma_datablock_members(block);
    if block.data is Some {
        lemma_points_read_back(block.data->Some_0@);
    }
    if block.icon is Some {
        block.icon->Some_0.lemma_token_reads_back();
    }
    lemma_first_some_none(rule_failures(json, rules));
}

/// The object that spells a forecast has the shape of one, and reports
/// what the forecast holds.
pub proof fn lemma_forecast_reads_back(forecast: Forecast)
    ensures
        forecast_failure(forecast_json(forecast)) is None,
        forecast_agrees(forecast, forecast_json(forecast)),
{
    lemma_forecast_members(forecast);
    lemma_alerts_read_back(forecast.alerts@);
    if forecast.currently is Some {
        lemma_datapoint_reads_back(forecast.currently->Some_0);
    }
    if forecast.daily is Some {
        lemma_datablock_reads_back(forecast.daily->Some_0);
    }
    if forecast.flags is Some {
        lemma_flags_reads_back(forecast.flags->Some_0);
    }
    if forecast.hourly is Some {
        lemma_datablock_reads_back(forecast.hourly->Some_0);
    }
    if forecast.minutely is Some {
        lemma_datablock_reads_back(forecast.minutely->Some_0);
    }
}

/// `a` and `b` are the same data point: they hold the same in every field,
/// texts compared by their characters and numbers by what they are.
pub open spec fn same_datapoint(a: Datapoint, b: Datapoint) -> bool {
    &&& a.apparent_temperature_max_time == b.apparent_temperature_max_time
    &&& opt_numeral(a.apparent_temperature_max) == opt_numeral(b.apparent_temperature_max)
    &&& a.apparent_temperature_min_time == b.apparent_temperature_min_time
    &&& opt_numeral(a.apparent_temperature_min) == opt_numeral(b.apparent_temperature_min)
    &&& opt_numeral(a.apparent_temperature) == opt_numeral(b.apparent_temperature)
    &&& opt_numeral(a.cloud_cover_error) == opt_numeral(b.cloud_cover_error)
    &&& opt_numeral(a.cloud_cover) == opt_numeral(b.cloud_cover)
    &&& opt_numeral(a.dew_point_error) == opt_numeral(b.dew_point_error)
    &&& opt_numeral(a.dew_point) == opt_numeral(b.dew_point)
    &&& opt_numeral(a.humidity_error) == opt_numeral(b.humidity_error)
    &&& opt_numeral(a.humidity) == opt_numeral(b.humidity)
    &&& a.icon == b.icon
    &&& opt_numeral(a.moon_phase) == opt_numeral(b.moon_phase)
    &&& opt_numeral(a.nearest_storm_bearing) == opt_numeral(b.nearest_storm_bearing)
    &&& opt_numeral(a.nearest_storm_distance) == opt_numeral(b.nearest_storm_distance)
    &&& opt_numeral(a.ozone_error) == opt_numeral(b.ozone_error)
    &&& opt_numeral(a.ozone) == opt_numeral(b.ozone)
    &&& opt_numeral(a.precip_accumulation_error) == opt_numeral(b.precip_accumulation_error)
    &&& opt_numeral(a.precip_accumulation) == opt_numeral(b.precip_accumulation)
    &&& opt_numeral(a.precip_intensity_error) == opt_numeral(b.precip_intensity_error)
    &&& opt_numeral(a.precip_intensity_max_error) == opt_numeral(b.precip_intensity_max_error)
    &&& a.precip_intensity_max_time == b.precip_intensity_max_time
    &&& opt_numeral(a.precip_intensity_max) == opt_numeral(b.precip_intensity_max)
    &&& opt_numeral(a.precip_intensity) == opt_numeral(b.precip_intensity)
    &&& opt_numeral(a.precip_probability_error) == opt_numeral(b.precip_probability_error)
    &&& opt_numeral(a.precip_probability) == opt_numeral(b.precip_probability)
    &&& a.precip_type == b.precip_type
    &&& opt_numeral(a.pressure_error) == opt_numeral(b.pressure_error)
    &&& opt_numeral(a.pressure) == opt_numeral(b.pressure)
    &&& opt_text(a.summary) == opt_text(b.summary)
    &&& a.sunrise_time == b.sunrise_time
    &&& a.sunset_time == b.sunset_time
    &&& opt_numeral(a.temperature_low) == opt_numeral(b.temperature_low)
    &&& a.temperature_low_time == b.temperature_low_time
    &&& opt_numeral(a.temperature_high) == opt_numeral(b.temperature_high)
    &&& a.temperature_high_time == b.temperature_high_time
    &&& opt_numeral(a.temperature_max_error) == opt_numeral(b.temperature_max_error)
    &&& a.temperature_max_time == b.temperature_max_time
    &&& opt_numeral(a.temperature_max) == opt_numeral(b.temperature_max)
    &&& opt_numeral(a.temperature_min_error) == opt_numeral(b.temperature_min_error)
    &&& a.temperature_min_time == b.temperature_min_time
    &&& opt_numeral(a.temperature_min) == opt_numeral(b.temperature_min)
    &&& opt_numeral(a.temperature_error) == opt_numeral(b.temperature_error)
    &&& opt_numeral(a.temperature) == opt_numeral(b.temperature)
    &&& a.time == b.time
    &&& a.uv_index == b.uv_index
    &&& a.uv_index_time == b.uv_index_time
    &&& opt_numeral(a.visibility_error) == opt_numeral(b.visibility_error)
    &&& opt_numeral(a.visibility) == opt_numeral(b.visibility)
    &&& opt_numeral(a.wind_bearing_error) == opt_numeral(b.wind_bearing_error)
    &&& opt_numeral(a.wind_bearing) == opt_numeral(b.wind_bearing)
    &&& opt_numeral(a.wind_gust) == opt_numeral(b.wind_gust)
    &&& a.wind_gust_time == b.wind_gust_time
    &&& opt_numeral(a.wind_speed_error) == opt_numeral(b.wind_speed_error)
    &&& opt_numeral(a.wind_speed) == opt_numeral(b.wind_speed)
}

/// `a` and `b` are the same alert.
pub open spec fn same_alert(a: Alert, b: Alert) -> bool {
    &&& a.expires == b.expires
    &&& a.description@ == b.description@
    &&& a.title@ == b.title@
    &&& a.uri@ == b.uri@
    &&& texts(a.regions) == texts(b.regions)
    &&& a.time == b.time
    &&& a.severity == b.severity
}

/// `a` and `b` are the same metadata.
pub open spec fn same_flags(a: Flags, b: Flags) -> bool {
    &&& opt_texts(a.darksky_stations) == opt_texts(b.darksky_stations)
    &&& opt_text(a.darksky_unavailable) == opt_text(b.darksky_unavailable)
    &&& opt_texts(a.datapoint_stations) == opt_texts(b.datapoint_stations)
    &&& opt_texts(a.isd_stations) == opt_texts(b.isd_stations)
    &&& opt_texts(a.lamp_stations) == opt_texts(b.lamp_stations)
    &&& opt_texts(a.metar_stations) == opt_texts(b.metar_stations)
    &&& opt_text(a.metno_license) == opt_text(b.metno_license)
    &&& opt_texts(a.sources) == opt_texts(b.sources)
    &&& opt_text(a.units) == opt_text(b.units)
}

/// `a` and `b` are the same list of data points.
pub open spec fn same_points(a: Seq<Datapoint>, b: Seq<Datapoint>) -> bool {
    &&& a.len() == b.len()
    &&& forall|i: int| 0 <= i < a.len() ==> same_datapoint(#[trigger] a[i], b[i])
}

/// `a` and `b` are the same list of alerts.
pub open spec fn same_alerts(a: Seq<Alert>, b: Seq<Alert>) -> bool {
    &&& a.len() == b.len()
    &&& forall|i: int| 0 <= i < a.len() ==> same_alert(#[trigger] a[i], b[i])
}

/// `a` and `b` are the same block of data.
pub open spec fn same_datablock(a: Datablock, b: Datablock) -> bool {
    &&& match (a.data, b.data) {
        (Some(x), Some(y)) => same_points(x@, y@),
        (None, None) => true,
        _ => false,
    }
    &&& a.icon == b.icon
    &&& opt_text(a.summary) == opt_text(b.summary)
}

/// `a` and `b` are the same data point, or both are missing.
pub open spec fn same_opt_datapoint(a: Option<Datapoint>, b: Option<Datapoint>) -> bool {
    match (a, b) {
        (Some(x), Some(y)) => same_datapoint(x, y),
        (None, None) => true,
        _ => false,
    }
}

/// `a` and `b` are the same block of data, or both are missing.
pub open spec fn same_opt_datablock(a: Option<Datablock>, b: Option<Datablock>) -> bool {
    match (a, b) {
        (Some(x), Some(y)) => same_datablock(x, y),
        (None, None) => true,
        _ => false,
    }
}

/// `a` and `b` are the same metadata, or both are missing.
pub open spec fn same_opt_flags(a: Option<Flags>, b: Option<Flags>) -> bool {
    match (a, b) {
        (Some(x), Some(y)) => same_flags(x, y),
        (None, None) => true,
        _ => false,
    }
}

/// `a` and `b` are the same forecast: they hold the same in every field,
/// all the way down, texts compared by their characters and numbers by
/// what they are.
pub open spec fn same_forecast(a: Forecast, b: Forecast) -> bool {
    &&& same_alerts(a.alerts@, b.alerts@)
    &&& same_opt_datapoint(a.currently, b.currently)
    &&& same_opt_datablock(a.daily, b.daily)
    &&& same_opt_flags(a.flags, b.flags)
    &&& same_opt_datablock(a.hourly, b.hourly)
    &&& numeral_of(a.latitude) == numeral_of(b.latitude)
    &&& numeral_of(a.longitude) == numeral_of(b.longitude)
    &&& same_opt_datablock(a.minutely, b.minutely)
    &&& opt_numeral(a.offset) == opt_numeral(b.offset)
    &&& a.timezone@ == b.timezone@
}

/// A data point that agrees with the object that spells `point` is the
/// same as `point`.
pub proof fn lemma_datapoint_round_trip(point: Datapoint, read: Datapoint)
    requires
        datapoint_agrees(read, datapoint_json(point)),
    ensures
        same_datapoint(read, point),
{
    lemma_datapoint_reads_back(point);
}

/// An alert that agrees with the object that spells `alert` is the same as
/// `alert`.
pub proof fn lemma_alert_round_trip(alert: Alert, read: Alert)
    requires
        alert_agrees(read, alert_json(alert)),
    ensures
        same_alert(read, alert),
{
    lemma_alert_reads_back(alert);
}

/// Metadata that agrees with the object that spells `flags` is the same as
/// `flags`.
pub proof fn lemma_flags_round_trip(flags: Flags, read: Flags)
    requires
        flags_agrees(read, flags_json(flags)),
    ensures
        same_flags(read, flags),
{
    lemma_flags_reads_back(flags);
}

/// A block of data that agrees with the object that spells `block` is the
/// same as `block`.
pub proof fn lemma_datablock_round_trip(block: Datablock, read: Datablock)
    requires
        datablock_agrees(read, datablock_json(block)),
    ensures
        same_datablock(read, block),
{
    lemma_datablock_reads_back(block);
    lemma_datablock_members(block);
    if block.data is Some {
        let points = block.data->Some_0@;
        let found = read.data->Some_0@;
        assert forall|i: int| 0 <= i < found.len() implies same_datapoint(
            #[trigger] found[i],
            points[i],
        ) by {
            lemma_datapoint_round_trip(points[i], found[i]);
        }
    }
}

/// Decoding reads back what encoding spells: the value that spells a
/// forecast has the shape of a forecast, so decoding it succeeds, and any
/// forecast that decoding may give for it is the same as the one spelled.
pub proof fn lemma_round_trip(forecast: Forecast, read: Forecast)
    ensures
        forecast_failure(forecast_json(forecast)) is None,
        forecast_agrees(read, forecast_json(forecast)) ==> same_forecast(read, forecast),
{
    lemma_forecast_reads_back(forecast);
    lemma_forecast_members(forecast);
    if forecast_agrees(read, forecast_json(forecast)) {
        let alerts = forecast.alerts@;
        let found = read.alerts@;
        assert forall|i: int| 0 <= i < found.len() implies same_alert(
            #[trigger] found[i],
            alerts[i],
        ) by {
            lemma_alert_round_trip(alerts[i], found[i]);
        }
        if forecast.currently is Some {
            lemma_datapoint_round_trip(forecast.currently->Some_0, read.currently->Some_0);
        }
        if forecast.daily is Some {
            lemma_datablock_round_trip(forecast.daily->Some_0, read.daily->Some_0);
        }
        if forecast.flags is Some {
            lemma_flags_round_trip(forecast.flags->Some_0, read.flags->Some_0);
        }
        if forecast.hourly is Some {
            lemma_datablock_round_trip(forecast.hourly->Some_0, read.hourly->Some_0);
        }
        if forecast.minutely is Some {
            lemma_datablock_round_trip(forecast.minutely->Some_0, read.minutely->Some_0);
        }
    }
}

/// The JSON number `n`, or null where there is none.
fn opt_unsigned_value(n: Option<u64>) -> (r: serde_json::Value)
    ensures
        json_of(r) == opt_unsigned_json(n),
{
    match n {
        Some(n) => unsigned_value(n),
        None => null_value(),
    }
}

/// The JSON number `n`, or null where there is none.
fn opt_number_value(n: &Option<serde_json::Number>) -> (r: serde_json::Value)
    ensures
        json_of(r) == opt_number_json(opt_numeral(*n)),
{
    match n {
        Some(n) => number_value(n),
        None => null_value(),
    }
}

/// The JSON string `text`, or null where there is none.
fn opt_text_value(text: &Option<String>) -> (r: serde_json::Value)
    ensures
        json_of(r) == opt_text_json(opt_text(*text)),
{
    match text {
        Some(t) => text_value(t.as_str()),
        None => null_value(),
    }
}

/// The JSON array of the strings `list`.
fn texts_value(list: &Vec<String>) -> (r: serde_json::Value)
    ensures
        json_of(r) == texts_json(texts(*list)),
{
    let mut items: Vec<serde_json::Value> = Vec::new();
    let mut i: usize = 0;
    while i < list.len()
        invariant
            i <= list@.len(),
            items@.len() == i,
            forall|k: int| 0 <= k < i ==> json_of(#[trigger] items@[k]) == Json::Text(list@[k]@),
        decreases list@.len() - i,
    {
        items.push(text_value(list[i].as_str()));
        i += 1;
    }
    assert(jsons_of(items@) =~= Seq::new(
        texts(*list).len(),
        |i: int| Json::Text(texts(*list)[i]),
    ));
    array_value(items)
}

/// The JSON array of the strings `list`, or null where there is none.
fn opt_texts_value(list: &Option<Vec<String>>) -> (r: serde_json::Value)
    ensures
        json_of(r) == opt_texts_json(opt_texts(*list)),
{
    match list {
        Some(l) => texts_value(l),
        None => null_value(),
    }
}

/// The JSON string that names `icon`, or null where there is none.
fn opt_icon_value(icon: Option<Icon>) -> (r: serde_json::Value)
    ensures
        json_of(r) == opt_icon_json(icon),
{
    match icon {
        Some(i) => text_value(i.name()),
        None => null_value(),
    }
}

/// The JSON string that names `kind`, or null where there is none.
fn opt_precipitation_value(kind: Option<PrecipitationType>) -> (r: serde_json::Value)
    ensures
        json_of(r) == opt_precipitation_json(kind),
{
    match kind {
        Some(k) => text_value(k.name()),
        None => null_value(),
    }
}

/// The JSON string that names `severity`.
fn severity_value(severity: Severity) -> (r: serde_json::Value)
    ensures
        json_of(r) == severity_json(severity),
{
    text_value(severity.name())
}

/// Spells `point` as a JSON object.
pub fn encode_datapoint(point: &Datapoint) -> (r: serde_json::Value)
    ensures
        json_of(r) == datapoint_json(*point),
{
    let mut members = no_members();
    put(&mut members, "apparentTemperatureMaxTime", opt_unsigned_value(point.apparent_temperature_max_time));
    put(&mut members, "apparentTemperatureMax", opt_number_value(&point.apparent_temperature_max));
    put(&mut members, "apparentTemperatureMinTime", opt_unsigned_value(point.apparent_temperature_min_time));
    put(&mut members, "apparentTemperatureMin", opt_number_value(&point.apparent_temperature_min));
    put(&mut members, "apparentTemperature", opt_number_value(&point.apparent_temperature));
    put(&mut members, "cloudCoverError", opt_number_value(&point.cloud_cover_error));
    put(&mut members, "cloudCover", opt_number_value(&point.cloud_cover));
    put(&mut members, "dewPointError", opt_number_value(&point.dew_point_error));
    put(&mut members, "dewPoint", opt_number_value(&point.dew_point));
    put(&mut members, "humidityError", opt_number_value(&point.humidity_error));
    put(&mut members, "humidity", opt_number_value(&point.humidity));
    put(&mut members, "icon", opt_icon_value(point.icon));
    put(&mut members, "moonPhase", opt_number_value(&point.moon_phase));
    put(&mut members, "nearestStormBearing", opt_number_value(&point.nearest_storm_bearing));
    put(&mut members, "nearestStormDistance", opt_number_value(&point.nearest_storm_distance));
    put(&mut members, "ozoneError", opt_number_value(&point.ozone_error));
    put(&mut members, "ozone", opt_number_value(&point.ozone));
    put(&mut members, "precipAccumulationError", opt_number_value(&point.precip_accumulation_error));
    put(&mut members, "precipAccumulation", opt_number_value(&point.precip_accumulation));
    put(&mut members, "precipIntensityError", opt_number_value(&point.precip_intensity_error));
    put(&mut members, "precipIntensityMaxError", opt_number_value(&point.precip_intensity_max_error));
    put(&mut members, "precipIntensityMaxTime", opt_unsigned_value(point.precip_intensity_max_time));
    put(&mut members, "precipIntensityMax", opt_number_value(&point.precip_intensity_max));
    put(&mut members, "precipIntensity", opt_number_value(&point.precip_intensity));
    put(&mut members, "precipProbabilityError", opt_number_value(&point.precip_probability_error));
    put(&mut members, "precipProbability", opt_number_value(&point.precip_probability));
    put(&mut members, "precipType", opt_precipitation_value(point.precip_type));
    put(&mut members, "pressureError", opt_number_value(&point.pressure_error));
    put(&mut members, "pressure", opt_number_value(&point.pressure));
    put(&mut members, "summary", opt_text_value(&point.summary));
    put(&mut members, "sunriseTime", opt_unsigned_value(point.sunrise_time));
    put(&mut members, "sunsetTime", opt_unsigned_value(point.sunset_time));
    put(&mut members, "temperatureLow", opt_number_value(&point.temperature_low));
    put(&mut members, "temperatureLowTime", opt_unsigned_value(point.temperature_low_time));
    put(&mut members, "temperatureHigh", opt_number_value(&point.temperature_high));
    put(&mut members, "temperatureHighTime", opt_unsigned_value(point.temperature_high_time));
    put(&mut members, "temperatureMaxError", opt_number_value(&point.temperature_max_error));
    put(&mut members, "temperatureMaxTime", opt_unsigned_value(point.temperature_max_time));
    put(&mut members, "temperatureMax", opt_number_value(&point.temperature_max));
    put(&mut members, "temperatureMinError", opt_number_value(&point.temperature_min_error));
    put(&mut members, "temperatureMinTime", opt_unsigned_value(point.temperature_min_time));
    put(&mut members, "temperatureMin", opt_number_value(&point.temperature_min));
    put(&mut members, "temperatureError", opt_number_value(&point.temperature_error));
    put(&mut members, "temperature", opt_number_value(&point.temperature));
    put(&mut members, "time", unsigned_value(point.time));
    put(&mut members, "uvIndex", opt_unsigned_value(point.uv_index));
    put(&mut members, "uvIndexTime", opt_unsigned_value(point.uv_index_time));
    put(&mut members, "visibilityError", opt_number_value(&point.visibility_error));
    put(&mut members, "visibility", opt_number_value(&point.visibility));
    put(&mut members, "windBearingError", opt_number_value(&point.wind_bearing_error));
    put(&mut members, "windBearing", opt_number_value(&point.wind_bearing));
    put(&mut members, "windGust", opt_number_value(&point.wind_gust));
    put(&mut members, "windGustTime", opt_unsigned_value(point.wind_gust_time));
    put(&mut members, "windSpeedError", opt_number_value(&point.wind_speed_error));
    put(&mut members, "windSpeed", opt_number_value(&point.wind_speed));
    object_value(members)
}

/// Spells `alert` as a JSON object.
pub fn encode_alert(alert: &Alert) -> (r: serde_json::Value)
    ensures
        json_of(r) == alert_json(*alert),
{
    let mut members = no_members();
    put(&mut members, "expires", unsigned_value(alert.expires));
    put(&mut members, "description", text_value(alert.description.as_str()));
    put(&mut members, "title", text_value(alert.title.as_str()));
    put(&mut members, "uri", text_value(alert.uri.as_str()));
    put(&mut members, "regions", texts_value(&alert.regions));
    put(&mut members, "time", unsigned_value(alert.time));
    put(&mut members, "severity", severity_value(alert.severity));
    object_value(members)
}

/// Spells `flags` as a JSON object.
pub fn encode_flags(flags: &Flags) -> (r: serde_json::Value)
    ensures
        json_of(r) == flags_json(*flags),
{
    let mut members = no_members();
    put(&mut members, "darksky-stations", opt_texts_value(&flags.darksky_stations));
    put(&mut members, "darksky-unavailable", opt_text_value(&flags.darksky_unavailable));
    put(&mut members, "datapoint-stations", opt_texts_value(&flags.datapoint_stations));
    put(&mut members, "isd-stations", opt_texts_value(&flags.isd_stations));
    put(&mut members, "lamp-stations", opt_texts_value(&flags.lamp_stations));
    put(&mut members, "metar-stations", opt_texts_value(&flags.metar_stations));
    put(&mut members, "metno-license", opt_text_value(&flags.metno_license));
    put(&mut members, "sources", opt_texts_value(&flags.sources));
    put(&mut members, "units", opt_text_value(&flags.units));
    object_value(members)
}

/// Spells `points` as a JSON array.
fn encode_points(points: &Vec<Datapoint>) -> (r: serde_json::Value)
    ensures
        json_of(r) == points_json(points@),
{
    let mut items: Vec<serde_json::Value> = Vec::new();
    let mut i: usize = 0;
    while i < points.len()
        invariant
            i <= points@.len(),
            items@.len() == i,
            forall|k: int| 0 <= k < i ==> json_of(#[trigger] items@[k]) == datapoint_json(points@[k]),
        decreases points@.len() - i,
    {
        items.push(encode_datapoint(&points[i]));
        i += 1;
    }
    assert(jsons_of(items@) =~= Seq::new(points@.len(), |i: int| datapoint_json(points@[i])));
    array_value(items)
}

/// Spells `alerts` as a JSON array.
fn encode_alerts(alerts: &Vec<Alert>) -> (r: serde_json::Value)
    ensures
        json_of(r) == alerts_json(alerts@),
{
    let mut items: Vec<serde_json::Value> = Vec::new();
    let mut i: usize = 0;
    while i < alerts.len()
        invariant
            i <= alerts@.len(),
            items@.len() == i,
            forall|k: int| 0 <= k < i ==> json_of(#[trigger] items@[k]) == alert_json(alerts@[k]),
        decreases alerts@.len() - i,
    {
        items.push(encode_alert(&alerts[i]));
        i += 1;
    }
    assert(jsons_of(items@) =~= Seq::new(alerts@.len(), |i: int| alert_json(alerts@[i])));
    array_value(items)
}

/// Spells `block` as a JSON object.
pub fn encode_datablock(block: &Datablock) -> (r: serde_json::Value)
    ensures
        json_of(r) == datablock_json(*block),
{
    let mut members = no_members();
    let data = match &block.data {
        Some(points) => encode_points(points),
        None => null_value(),
    };
    put(&mut members, "data", data);
    put(&mut members, "icon", opt_icon_value(block.icon));
    put(&mut members, "summary", opt_text_value(&block.summary));
    object_value(members)
}

/// Spells `forecast` as a JSON value: an object that lists every field of
/// a forecast by name, with null for each one that is `None`. The decoder
/// reads the value back as the same forecast.
pub fn encode_value(forecast: &Forecast) -> (r: serde_json::Value)
    ensures
        json_of(r) == forecast_json(*forecast),
{
    let mut members = no_members();
    put(&mut members, "alerts", encode_alerts(&forecast.alerts));
    let currently = match &forecast.currently {
        Some(point) => encode_datapoint(point),
        None => null_value(),
    };
    put(&mut members, "currently", currently);
    let daily = match &forecast.daily {
        Some(block) => encode_datablock(block),
        None => null_value(),
    };
    put(&mut members, "daily", daily);
    let flags = match &forecast.flags {
        Some(flags) => encode_flags(flags),
        None => null_value(),
    };
    put(&mut members, "flags", flags);
    let hourly = match &forecast.hourly {
        Some(block) => encode_datablock(block),
        None => null_value(),
    };
    put(&mut members, "hourly", hourly);
    put(&mut members, "latitude", number_value(&forecast.latitude));
    put(&mut members, "longitude", number_value(&forecast.longitude));
    let minutely = match &forecast.minutely {
        Some(block) => encode_datablock(block),
        None => null_value(),
    };
    put(&mut members, "minutely", minutely);
    put(&mut members, "offset", opt_number_value(&forecast.offset));
    put(&mut members, "timezone", text_value(forecast.timezone.as_str()));
    object_value(members)
}

} // verus!
