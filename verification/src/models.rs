//! The typed form of a response: a forecast and the parts it is made of.
//!
//! Whatever a response may leave out is an `Option` here, and stays `None`
//! when it is left out: no number is ever filled in for one that was not
//! reported.

use crate::json::same_text;
use vstd::prelude::*;

verus! {

/// The kind of weather, as a name made for choosing a symbol.
#[derive(Clone, Copy, Debug, PartialEq, Eq, Structural, PartialOrd, Ord, Hash)]
pub enum Icon {
    /// A clear sky by day.
    ClearDay,
    /// A clear sky by night.
    ClearNight,
    /// Clouds.
    Cloudy,
    /// Fog.
    Fog,
    /// Hail.
    Hail,
    /// Some clouds by day.
    PartlyCloudyDay,
    /// Some clouds by night.
    PartlyCloudyNight,
    /// Rain.
    Rain,
    /// Sleet.
    Sleet,
    /// Snow.
    Snow,
    /// A thunderstorm.
    Thunderstorm,
    /// A tornado.
    Tornado,
    /// Wind.
    Wind,
}

impl Icon {
    /// The wire token of this value.
    pub open spec fn token(self) -> Seq<char> {
        match self {
            Icon::ClearDay => "clear-day"@,
            Icon::ClearNight => "clear-night"@,
            Icon::Cloudy => "cloudy"@,
            Icon::Fog => "fog"@,
            Icon::Hail => "hail"@,
            Icon::PartlyCloudyDay => "partly-cloudy-day"@,
            Icon::PartlyCloudyNight => "partly-cloudy-night"@,
            Icon::Rain => "rain"@,
            Icon::Sleet => "sleet"@,
            Icon::Snow => "snow"@,
            Icon::Thunderstorm => "thunderstorm"@,
            Icon::Tornado => "tornado"@,
            Icon::Wind => "wind"@,
        }
    }

    /// The value that `token` stands for. Only the exact tokens stand for
    /// a value.
    pub open spec fn of_token(token: Seq<char>) -> Option<Self> {
        if token == "clear-day"@ {
            Some(Icon::ClearDay)
        } else if token == "clear-night"@ {
            Some(Icon::ClearNight)
        } else if token == "cloudy"@ {
            Some(Icon::Cloudy)
        } else if token == "fog"@ {
            Some(Icon::Fog)
        } else if token == "hail"@ {
            Some(Icon::Hail)
        } else if token == "partly-cloudy-day"@ {
            Some(Icon::PartlyCloudyDay)
        } else if token == "partly-cloudy-night"@ {
            Some(Icon::PartlyCloudyNight)
        } else if token == "rain"@ {
            Some(Icon::Rain)
        } else if token == "sleet"@ {
            Some(Icon::Sleet)
        } else if token == "snow"@ {
            Some(Icon::Snow)
        } else if token == "thunderstorm"@ {
            Some(Icon::Thunderstorm)
        } else if token == "tornado"@ {
            Some(Icon::Tornado)
        } else if token == "wind"@ {
            Some(Icon::Wind)
        } else {
            None
        }
    }

    /// Returns the exact string that stands for this value in a response.
    pub fn name(&self) -> (r: &'static str)
        ensures
            r@ == self.token(),
    {
        match *self {
            Icon::ClearDay => "clear-day",
            Icon::ClearNight => "clear-night",
            Icon::Cloudy => "cloudy",
            Icon::Fog => "fog",
            Icon::Hail => "hail",
            Icon::PartlyCloudyDay => "partly-cloudy-day",
            Icon::PartlyCloudyNight => "partly-cloudy-night",
            Icon::Rain => "rain",
            Icon::Sleet => "sleet",
            Icon::Snow => "snow",
            Icon::Thunderstorm => "thunderstorm",
            Icon::Tornado => "tornado",
            Icon::Wind => "wind",
        }
    }

    /// Reads a value from its token; any other text stands for none.
    pub fn from_name(token: &str) -> (r: Option<Self>)
        ensures
            r == Self::of_token(token@),
    {
        if same_text(token, "clear-day") {
            Some(Icon::ClearDay)
        } else if same_text(token, "clear-night") {
            Some(Icon::ClearNight)
        } else if same_text(token, "cloudy") {
            Some(Icon::Cloudy)
        } else if same_text(token, "fog") {
            Some(Icon::Fog)
        } else if same_text(token, "hail") {
            Some(Icon::Hail)
        } else if same_text(token, "partly-cloudy-day") {
            Some(Icon::PartlyCloudyDay)
        } else if same_text(token, "partly-cloudy-night") {
            Some(Icon::PartlyCloudyNight)
        } else if same_text(token, "rain") {
            Some(Icon::Rain)
        } else if same_text(token, "sleet") {
            Some(Icon::Sleet)
        } else if same_text(token, "snow") {
            Some(Icon::Snow)
        } else if same_text(token, "thunderstorm") {
            Some(Icon::Thunderstorm)
        } else if same_text(token, "tornado") {
            Some(Icon::Tornado)
        } else if same_text(token, "wind") {
            Some(Icon::Wind)
        } else {
            None
        }
    }

    /// Every value is read back from its own token.
    pub proof fn lemma_token_reads_back(self)
        ensures
            Self::of_token(self.token()) == Some(self),
    {
        reveal_strlit("clear-day");
        reveal_strlit("clear-night");
        reveal_strlit("cloudy");
        reveal_strlit("fog");
        reveal_strlit("hail");
        reveal_strlit("partly-cloudy-day");
        reveal_strlit("partly-cloudy-night");
        reveal_strlit("rain");
        reveal_strlit("sleet");
        reveal_strlit("snow");
        reveal_strlit("thunderstorm");
        reveal_strlit("tornado");
        reveal_strlit("wind");
        assert("clear-day"@.len() == 9 && "clear-day"@[0] == 'c');
        assert("clear-night"@.len() == 11 && "clear-night"@[0] == 'c');
        assert("cloudy"@.len() == 6 && "cloudy"@[0] == 'c');
        assert("fog"@.len() == 3 && "fog"@[0] == 'f');
        assert("hail"@.len() == 4 && "hail"@[0] == 'h');
        assert("partly-cloudy-day"@.len() == 17 && "partly-cloudy-day"@[0] == 'p');
        assert("partly-cloudy-night"@.len() == 19 && "partly-cloudy-night"@[0] == 'p');
        assert("rain"@.len() == 4 && "rain"@[0] == 'r');
        assert("sleet"@.len() == 5 && "sleet"@[0] == 's');
        assert("snow"@.len() == 4 && "snow"@[0] == 's');
        assert("thunderstorm"@.len() == 12 && "thunderstorm"@[0] == 't');
        assert("tornado"@.len() == 7 && "tornado"@[0] == 't');
        assert("wind"@.len() == 4 && "wind"@[0] == 'w');
    }
}
/// The kind of precipitation at a data point.
#[derive(Clone, Copy, Debug, PartialEq, Eq, Structural, PartialOrd, Ord, Hash)]
pub enum PrecipitationType {
    /// Rain.
    Rain,
    /// Sleet.
    Sleet,
    /// Snow.
    Snow,
}

impl PrecipitationType {
    /// The wire token of this value.
    pub open spec fn token(self) -> Seq<char> {
        match self {
            PrecipitationType::Rain => "rain"@,
            PrecipitationType::Sleet => "sleet"@,
            PrecipitationType::Snow => "snow"@,
        }
    }

    /// The value that `token` stands for. Only the exact tokens stand for
    /// a value.
    pub open spec fn of_token(token: Seq<char>) -> Option<Self> {
        if token == "rain"@ {
            Some(PrecipitationType::Rain)
        } else if token == "sleet"@ {
            Some(PrecipitationType::Sleet)
        } else if token == "snow"@ {
            Some(PrecipitationType::Snow)
        } else {
            None
        }
    }

    /// Returns the exact string that stands for this value in a response.
    pub fn name(&self) -> (r: &'static str)
        ensures
            r@ == self.token(),
    {
        match *self {
            PrecipitationType::Rain => "rain",
            PrecipitationType::Sleet => "sleet",
            PrecipitationType::Snow => "snow",
        }
    }

    /// Reads a value from its token; any other text stands for none.
    pub fn from_name(token: &str) -> (r: Option<Self>)
        ensures
            r == Self::of_token(token@),
    {
        if same_text(token, "rain") {
            Some(PrecipitationType::Rain)
        } else if same_text(token, "sleet") {
            Some(PrecipitationType::Sleet)
        } else if same_text(token, "snow") {
            Some(PrecipitationType::Snow)
        } else {
            None
        }
    }

    /// Every value is read back from its own token.
    pub proof fn lemma_token_reads_back(self)
        ensures
            Self::of_token(self.token()) == Some(self),
    {
        reveal_strlit("rain");
        reveal_strlit("sleet");
        reveal_strlit("snow");
        assert("rain"@.len() == 4 && "rain"@[0] == 'r');
        assert("sleet"@.len() == 5 && "sleet"@[0] == 's');
        assert("snow"@.len() == 4 && "snow"@[0] == 's');
    }
}
/// How severe a weather alert is.
#[derive(Clone, Copy, Debug, PartialEq, Eq, Structural)]
pub enum Severity {
    /// Be aware that severe weather may come.
    Advisory,
    /// Prepare for severe weather that may come.
    Watch,
    /// Act now: severe weather is here or about to be.
    Warning,
}

impl Severity {
    /// The wire token of this value.
    pub open spec fn token(self) -> Seq<char> {
        match self {
            Severity::Advisory => "advisory"@,
            Severity::Watch => "watch"@,
            Severity::Warning => "warning"@,
        }
    }

    /// The value that `token` stands for. Only the exact tokens stand for
    /// a value.
    pub open spec fn of_token(token: Seq<char>) -> Option<Self> {
        if token == "advisory"@ {
            Some(Severity::Advisory)
        } else if token == "watch"@ {
            Some(Severity::Watch)
        } else if token == "warning"@ {
            Some(Severity::Warning)
        } else {
            None
        }
    }

    /// Returns the exact string that stands for this value in a response.
    pub fn name(&self) -> (r: &'static str)
        ensures
            r@ == self.token(),
    {
        match *self {
            Severity::Advisory => "advisory",
            Severity::Watch => "watch",
            Severity::Warning => "warning",
        }
    }

    /// Reads a value from its token; any other text stands for none.
    pub fn from_name(token: &str) -> (r: Option<Self>)
        ensures
            r == Self::of_token(token@),
    {
        if same_text(token, "advisory") {
            Some(Severity::Advisory)
        } else if same_text(token, "watch") {
            Some(Severity::Watch)
        } else if same_text(token, "warning") {
            Some(Severity::Warning)
        } else {
            None
        }
    }

    /// Every value is read back from its own token.
    pub proof fn lemma_token_reads_back(self)
        ensures
            Self::of_token(self.token()) == Some(self),
    {
        reveal_strlit("advisory");
        reveal_strlit("watch");
        reveal_strlit("warning");
        assert("advisory"@.len() == 8 && "advisory"@[0] == 'a');
        assert("watch"@.len() == 5 && "watch"@[0] == 'w');
        assert("warning"@.len() == 7 && "warning"@[0] == 'w');
    }
}
/// A severe-weather warning in words, issued for a place and valid until it
/// expires. A forecast may carry several.
#[derive(Clone, Debug, PartialEq)]
pub struct Alert {
    /// When the alert expires, in Unix time.
    pub expires: u64,
    /// The alert in full.
    pub description: String,
    /// The alert in a few words.
    pub title: String,
    /// Where to read more about the alert.
    pub uri: String,
    /// The names of the regions that the alert covers.
    pub regions: Vec<String>,
    /// When the alert was issued, in Unix time.
    pub time: u64,
    /// How severe the alert is.
    pub severity: Severity,
}
/// The data of one granularity: its data points, with a summary of the whole.
#[derive(Clone, Debug, PartialEq)]
pub struct Datablock {
    /// The data points, where there are any.
    pub data: Option<Vec<Datapoint>>,
    /// The kind of weather over the whole block.
    pub icon: Option<Icon>,
    /// A summary of the whole block in words.
    pub summary: Option<String>,
}

/// One observation or prediction, for a moment or a span of time. Only `time`
/// is always there: every measurement may be missing where the sources have
/// a gap.
///
/// A field whose name ends in `_error` is the standard deviation of the field
/// it is named after, where the confidence in that value is known.
#[derive(Clone, Debug, PartialEq)]
pub struct Datapoint {
    /// When the apparent temperature is highest during the day, in Unix time. Daily data only.
    pub apparent_temperature_max_time: Option<u64>,
    /// The highest apparent temperature of the day. Daily data only.
    pub apparent_temperature_max: Option<serde_json::Number>,
    /// When the apparent temperature is lowest during the night, in Unix time. Daily data only.
    pub apparent_temperature_min_time: Option<u64>,
    /// The lowest apparent temperature of the night. Daily data only.
    pub apparent_temperature_min: Option<serde_json::Number>,
    /// The temperature as it feels.
    pub apparent_temperature: Option<serde_json::Number>,
    /// The standard deviation of `cloud_cover`.
    pub cloud_cover_error: Option<serde_json::Number>,
    /// The share of the sky that clouds cover, from 0 to 1.
    pub cloud_cover: Option<serde_json::Number>,
    /// The standard deviation of `dew_point`.
    pub dew_point_error: Option<serde_json::Number>,
    /// The dew point.
    pub dew_point: Option<serde_json::Number>,
    /// The standard deviation of `humidity`.
    pub humidity_error: Option<serde_json::Number>,
    /// The relative humidity, from 0 to 1.
    pub humidity: Option<serde_json::Number>,
    /// The kind of weather, for choosing a symbol.
    pub icon: Option<Icon>,
    /// The phase of the moon, from 0 at new moon through 0.5 at full moon. Daily data only.
    pub moon_phase: Option<serde_json::Number>,
    /// The direction of the nearest storm in degrees, clockwise from north. Current data only.
    pub nearest_storm_bearing: Option<serde_json::Number>,
    /// The distance to the nearest storm. Current data only.
    pub nearest_storm_distance: Option<serde_json::Number>,
    /// The standard deviation of `ozone`.
    pub ozone_error: Option<serde_json::Number>,
    /// The ozone column in Dobson units.
    pub ozone: Option<serde_json::Number>,
    /// The standard deviation of `precip_accumulation`.
    pub precip_accumulation_error: Option<serde_json::Number>,
    /// The snowfall expected to accumulate. Hourly and daily data only.
    pub precip_accumulation: Option<serde_json::Number>,
    /// The standard deviation of `precip_intensity`.
    pub precip_intensity_error: Option<serde_json::Number>,
    /// The standard deviation of `precip_intensity_max`.
    pub precip_intensity_max_error: Option<serde_json::Number>,
    /// When precipitation is strongest during the day, in Unix time. Daily data only.
    pub precip_intensity_max_time: Option<u64>,
    /// The strongest precipitation of the day. Daily data only.
    pub precip_intensity_max: Option<serde_json::Number>,
    /// The intensity of precipitation, as liquid water per hour.
    pub precip_intensity: Option<serde_json::Number>,
    /// The standard deviation of `precip_probability`.
    pub precip_probability_error: Option<serde_json::Number>,
    /// The probability of precipitation, from 0 to 1.
    pub precip_probability: Option<serde_json::Number>,
    /// The kind of precipitation.
    pub precip_type: Option<PrecipitationType>,
    /// The standard deviation of `pressure`.
    pub pressure_error: Option<serde_json::Number>,
    /// The air pressure at sea level, in millibars.
    pub pressure: Option<serde_json::Number>,
    /// A summary in words, for people to read.
    pub summary: Option<String>,
    /// When the sun rises, in Unix time. Daily data only.
    pub sunrise_time: Option<u64>,
    /// When the sun sets, in Unix time. Daily data only.
    pub sunset_time: Option<u64>,
    /// The lowest temperature of the night. Daily data only.
    pub temperature_low: Option<serde_json::Number>,
    /// When the temperature is lowest during the night, in Unix time. Daily data only.
    pub temperature_low_time: Option<u64>,
    /// The highest temperature of the day. Daily data only.
    pub temperature_high: Option<serde_json::Number>,
    /// When the temperature is highest during the day, in Unix time. Daily data only.
    pub temperature_high_time: Option<u64>,
    /// The standard deviation of `temperature_max`.
    pub temperature_max_error: Option<serde_json::Number>,
    /// When the temperature is highest on the date, in Unix time. Daily data only.
    pub temperature_max_time: Option<u64>,
    /// The highest temperature of the date. Daily data only.
    pub temperature_max: Option<serde_json::Number>,
    /// The standard deviation of `temperature_min`.
    pub temperature_min_error: Option<serde_json::Number>,
    /// When the temperature is lowest on the date, in Unix time. Daily data only.
    pub temperature_min_time: Option<u64>,
    /// The lowest temperature of the date. Daily data only.
    pub temperature_min: Option<serde_json::Number>,
    /// The standard deviation of `temperature`.
    pub temperature_error: Option<serde_json::Number>,
    /// The air temperature.
    pub temperature: Option<serde_json::Number>,
    /// When the data point begins, in Unix time: the top of the minute, of the hour, or midnight of the day. Always present.
    pub time: u64,
    /// The UV index.
    pub uv_index: Option<u64>,
    /// When the UV index is highest during the day, in Unix time.
    pub uv_index_time: Option<u64>,
    /// The standard deviation of `visibility`.
    pub visibility_error: Option<serde_json::Number>,
    /// The average visibility.
    pub visibility: Option<serde_json::Number>,
    /// The standard deviation of `wind_bearing`.
    pub wind_bearing_error: Option<serde_json::Number>,
    /// The direction the wind comes from in degrees, clockwise from north.
    pub wind_bearing: Option<serde_json::Number>,
    /// The speed of wind gusts.
    pub wind_gust: Option<serde_json::Number>,
    /// When the gusts are strongest, in Unix time.
    pub wind_gust_time: Option<u64>,
    /// The standard deviation of `wind_speed`.
    pub wind_speed_error: Option<serde_json::Number>,
    /// The wind speed.
    pub wind_speed: Option<serde_json::Number>,
}
/// Metadata of a response: where its data came from.
#[derive(Clone, Debug, PartialEq)]
pub struct Flags {
    /// The Dark Sky stations that contributed.
    pub darksky_stations: Option<Vec<String>>,
    /// Set where Dark Sky's own stations are out of reach for the place.
    pub darksky_unavailable: Option<String>,
    /// The DataPoint stations that contributed.
    pub datapoint_stations: Option<Vec<String>>,
    /// The ISD stations that contributed.
    pub isd_stations: Option<Vec<String>>,
    /// The LAMP stations that contributed.
    pub lamp_stations: Option<Vec<String>>,
    /// The METAR stations that contributed.
    pub metar_stations: Option<Vec<String>>,
    /// The licence of data from the Norwegian Meteorological Institute.
    pub metno_license: Option<String>,
    /// The data sources that contributed.
    pub sources: Option<Vec<String>>,
    /// The unit system of the response.
    pub units: Option<String>,
}
/// A forecast for one place: the root of a response.
#[derive(Clone, Debug, PartialEq)]
pub struct Forecast {
    /// The alerts in force for the place; empty where the response names
    /// none.
    pub alerts: Vec<Alert>,
    /// The weather now.
    pub currently: Option<Datapoint>,
    /// The weather day by day.
    pub daily: Option<Datablock>,
    /// Metadata of the response.
    pub flags: Option<Flags>,
    /// The weather hour by hour.
    pub hourly: Option<Datablock>,
    /// The latitude of the place.
    pub latitude: serde_json::Number,
    /// The longitude of the place.
    pub longitude: serde_json::Number,
    /// The weather minute by minute.
    pub minutely: Option<Datablock>,
    /// The offset of the place's time zone from UTC, in hours.
    pub offset: Option<serde_json::Number>,
    /// The name of the place's time zone.
    pub timezone: String,
}

} // verus!
