//! Weather lookup logic: picking the first geocoding match and assembling a
//! weather snapshot from the current-conditions reply.
//!
//! The numeric readings travel as the decimal text the JSON reply carried, so
//! that no precision is invented here; a missing optional reading defaults to
//! zero by design rather than failing.

use vstd::prelude::*;
use crate::json::{
    json_as_array, json_as_i64, json_as_str, json_get, json_node, json_num_text, json_of_text,
    nodes_of, parse_json, JsonNode,
};

verus! {

/// The first geocoding match: the place, and its coordinates as decimal text.
#[derive(Debug, PartialEq)]
pub struct GeoLocation {
    pub name: String,
    pub country: String,
    pub latitude: String,
    pub longitude: String,
}

/// The view of a geocoding match.
pub struct GeoV {
    pub name: Seq<char>,
    pub country: Seq<char>,
    pub latitude: Seq<char>,
    pub longitude: Seq<char>,
}

impl View for GeoLocation {
    type V = GeoV;

    open spec fn view(&self) -> GeoV {
        GeoV {
            name: self.name@,
            country: self.country@,
            latitude: self.latitude@,
            longitude: self.longitude@,
        }
    }
}

/// The current readings of a weather reply, each as decimal text, and the
/// numeric weather code.
#[derive(Debug)]
pub struct CurrentWeather {
    pub temp: String,
    pub humidity: String,
    pub wind_speed: String,
    pub weather_code: i64,
}

/// The view of the current readings.
pub struct CurrentV {
    pub temp: Seq<char>,
    pub humidity: Seq<char>,
    pub wind_speed: Seq<char>,
    pub weather_code: i64,
}

impl View for CurrentWeather {
    type V = CurrentV;

    open spec fn view(&self) -> CurrentV {
        CurrentV {
            temp: self.temp@,
            humidity: self.humidity@,
            wind_speed: self.wind_speed@,
            weather_code: self.weather_code,
        }
    }
}

/// A weather snapshot: the resolved place and its current readings.
#[derive(Debug)]
pub struct WeatherData {
    pub name: String,
    pub country: String,
    pub temp: String,
    pub humidity: String,
    pub wind_speed: String,
    pub weather_code: i64,
}

/// The view of a weather snapshot.
pub struct WeatherV {
    pub name: Seq<char>,
    pub country: Seq<char>,
    pub temp: Seq<char>,
    pub humidity: Seq<char>,
    pub wind_speed: Seq<char>,
    pub weather_code: i64,
}

impl View for WeatherData {
    type V = WeatherV;

    open spec fn view(&self) -> WeatherV {
        WeatherV {
            name: self.name@,
            country: self.country@,
            temp: self.temp@,
            humidity: self.humidity@,
            wind_speed: self.wind_speed@,
            weather_code: self.weather_code,
        }
    }
}

/// Indexing a JSON value by key, as the reply readers do it: the field of an
/// object that has the key, null otherwise.
pub open spec fn field_of(j: JsonNode, key: Seq<char>) -> JsonNode {
    match j {
        JsonNode::Obj(m) => {
            if m.dom().contains(key) {
                m[key]
            } else {
                JsonNode::Null
            }
        },
        _ => JsonNode::Null,
    }
}

/// The geocoding result list, when the reply carries one.
pub open spec fn geo_results_of(j: JsonNode) -> Option<Seq<JsonNode>> {
    match field_of(j, "results"@) {
        JsonNode::Arr(elems) => Some(elems),
        _ => None,
    }
}

/// The decimal text of a numeric field, when the field is a number.
pub open spec fn field_num_text(j: JsonNode, key: Seq<char>) -> Option<Seq<char>> {
    match field_of(j, key) {
        JsonNode::Num { text, .. } => Some(text),
        _ => None,
    }
}

/// A string field, defaulting to empty when absent or of another kind.
pub open spec fn field_str_or_empty(j: JsonNode, key: Seq<char>) -> Seq<char> {
    match field_of(j, key) {
        JsonNode::Str(s) => s,
        _ => Seq::empty(),
    }
}

/// A numeric reading of the current-conditions object, as decimal text,
/// defaulting to zero when the reading is absent or not a number.
pub open spec fn current_num_or_zero(j: JsonNode, key: Seq<char>) -> Seq<char> {
    match field_num_text(field_of(j, "current"@), key) {
        Some(t) => t,
        None => "0"@,
    }
}

/// The integer weather code of the current-conditions object, defaulting to
/// zero when absent or not an integer.
pub open spec fn current_i64_or_zero(j: JsonNode, key: Seq<char>) -> i64 {
    match field_of(field_of(j, "current"@), key) {
        JsonNode::Num { int_val, .. } => match int_val {
            Some(i) => i,
            None => 0,
        },
        _ => 0,
    }
}

/// Interpret a geocoding reply: an error when the reply does not decode, has
/// no result list, the list is empty, or the first match lacks numeric
/// coordinates; otherwise the first match with its coordinate text.
pub fn parse_geocoding_response(body: &str) -> (r: Result<GeoLocation, String>)
    ensures
        match json_of_text(body@) {
            None => r is Err,
            Some(j) => match geo_results_of(j) {
                None => r matches Err(e) && e@ == "Город не найден"@,
                Some(results) => {
                    if results.len() == 0 {
                        r matches Err(e) && e@ == "Город не найден"@
                    } else {
                        match (
                            field_num_text(results[0], "latitude"@),
                            field_num_text(results[0], "longitude"@),
                        ) {
                            (Some(lat), Some(lon)) => r matches Ok(g) && g@ == (GeoV {
                                name: field_str_or_empty(results[0], "name"@),
                                country: field_str_or_empty(results[0], "country"@),
                                latitude: lat,
                                longitude: lon,
                            }),
                            _ => r matches Err(e) && e@ == "Нет координат"@,
                        }
                    }
                },
            },
        },
{
    let v = match parse_json(body) {
        Ok(v) => v,
        Err(detail) => {
            let mut e = String::from_str("Ошибка парсинга: ");
            e.append(detail.as_str());
            return Err(e);
        },
    };
    let results_v = match json_get(&v, "results") {
        Some(f) => f,
        None => {
            return Err(String::from_str("Город не найден"));
        },
    };
    let results = match json_as_array(results_v) {
        Some(a) => a,
        None => {
            return Err(String::from_str("Город не найден"));
        },
    };
    if results.len() == 0 {
        return Err(String::from_str("Город не найден"));
    }
    let first = &results[0];
    proof {
        assert(nodes_of(results@)[0] == json_node(results@[0]));
    }
    let latitude = match get_num_text(first, "latitude") {
        Some(t) => t,
        None => {
            return Err(String::from_str("Нет координат"));
        },
    };
    let longitude = match get_num_text(first, "longitude") {
        Some(t) => t,
        None => {
            return Err(String::from_str("Нет координат"));
        },
    };
    let name = get_str_or_empty(first, "name");
    let country = get_str_or_empty(first, "country");
    Ok(GeoLocation { name, country, latitude, longitude })
}

/// The decimal text of a numeric field, `None` when it is not a number.
fn get_num_text(v: &serde_json::Value, key: &str) -> (r: Option<String>)
    ensures
        match field_num_text(json_node(*v), key@) {
            Some(t) => r matches Some(s) && s@ == t,
            None => r is None,
        },
{
    match json_get(v, key) {
        Some(f) => json_num_text(f),
        None => None,
    }
}

/// A string field, or the empty string when absent or of another kind.
fn get_str_or_empty(v: &serde_json::Value, key: &str) -> (r: String)
    ensures
        r@ == field_str_or_empty(json_node(*v), key@),
{
    match json_get(v, key) {
        Some(f) => match json_as_str(f) {
            Some(s) => s.to_owned(),
            None => String::new(),
        },
        None => String::new(),
    }
}

/// Interpret a current-conditions reply: every reading defaults to zero when
/// it is absent or of the wrong kind; only a body that is not JSON fails.
pub fn parse_weather_response(body: &str) -> (r: Result<CurrentWeather, String>)
    ensures
        match json_of_text(body@) {
            None => r is Err,
            Some(j) => r matches Ok(c) && c@ == (CurrentV {
                temp: current_num_or_zero(j, "temperature_2m"@),
                humidity: current_num_or_zero(j, "relative_humidity_2m"@),
                wind_speed: current_num_or_zero(j, "wind_speed_10m"@),
                weather_code: current_i64_or_zero(j, "weather_code"@),
            }),
        },
{
    let v = match parse_json(body) {
        Ok(v) => v,
        Err(detail) => {
            let mut e = String::from_str("Ошибка парсинга погоды: ");
            e.append(detail.as_str());
            return Err(e);
        },
    };
    match json_get(&v, "current") {
        Some(cur) => {
            let temp = num_text_or_zero(cur, "temperature_2m");
            let humidity = num_text_or_zero(cur, "relative_humidity_2m");
            let wind_speed = num_text_or_zero(cur, "wind_speed_10m");
            let weather_code = i64_or_zero(cur, "weather_code");
            Ok(CurrentWeather { temp, humidity, wind_speed, weather_code })
        },
        None => {
            proof {
                assert(field_of(json_node(v), "current"@) is Null);
            }
            Ok(
                CurrentWeather {
                    temp: String::from_str("0"),
                    humidity: String::from_str("0"),
                    wind_speed: String::from_str("0"),
                    weather_code: 0,
                },
            )
        },
    }
}

/// A numeric reading as text, or "0" when absent or not a number.
fn num_text_or_zero(v: &serde_json::Value, key: &str) -> (r: String)
    ensures
        r@ == (match field_num_text(json_node(*v), key@) {
            Some(t) => t,
            None => "0"@,
        }),
{
    match get_num_text(v, key) {
        Some(t) => t,
        None => String::from_str("0"),
    }
}

/// An integer reading, or zero when absent or not an integer.
fn i64_or_zero(v: &serde_json::Value, key: &str) -> (r: i64)
    ensures
        r == (match field_of(json_node(*v), key@) {
            JsonNode::Num { int_val, .. } => match int_val {
                Some(i) => i,
                None => 0,
            },
            _ => 0,
        }),
{
    match json_get(v, key) {
        Some(f) => match json_as_i64(f) {
            Some(i) => i,
            None => 0,
        },
        None => 0,
    }
}

/// Combine the resolved place and its current readings into one snapshot.
pub fn weather_data(location: GeoLocation, current: CurrentWeather) -> (r: WeatherData)
    ensures
        r@ == (WeatherV {
            name: location@.name,
            country: location@.country,
            temp: current@.temp,
            humidity: current@.humidity,
            wind_speed: current@.wind_speed,
            weather_code: current@.weather_code,
        }),
{
    WeatherData {
        name: location.name,
        country: location.country,
        temp: current.temp,
        humidity: current.humidity,
        wind_speed: current.wind_speed,
        weather_code: current.weather_code,
    }
}

} // verus!
