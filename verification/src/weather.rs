//! The weather refresh: the endpoint URL with its cache-busting parameter,
//! the decoding of the fixed JSON forecast shape, and the exact rendering
//! of the report string shown in the widget.

use vstd::prelude::*;
use crate::digits::{spec_udecimal, u32_decimal};
use crate::text::{spec_strip_prefix, spec_strip_suffix, strip_prefix_str, strip_suffix_str};

verus! {

/// Why a weather refresh produced no report.
#[derive(Clone, Copy, Debug, PartialEq, Eq, Structural)]
pub enum WeatherError {
    /// The response body is not a JSON document.
    BadJson,
    /// The document has no top-level "data" member.
    MissingData,
    /// The data member has no first forecast entry.
    MissingForecast,
}

impl WeatherError {
    /// A fixed description of the failure.
    pub fn message(&self) -> (r: &'static str)
        ensures
            *self is BadJson ==> r@ == "Failed to parse weather data"@,
            *self is MissingData ==> r@ == "Failed to get weather data"@,
            *self is MissingForecast ==> r@ == "Failed to get forecast"@,
    {
        match self {
            WeatherError::BadJson => "Failed to parse weather data",
            WeatherError::MissingData => "Failed to get weather data",
            WeatherError::MissingForecast => "Failed to get forecast",
        }
    }
}

/// The five textual fields of one forecast entry, after the absent ones
/// have been replaced by their sentinels.
pub struct ForecastFields {
    pub kind: String,
    pub high: String,
    pub low: String,
    pub fx: String,
    pub fl: String,
}

/// A temperature bound with its prefix (such as the high-temperature
/// marker) and its trailing degree sign removed.
pub open spec fn spec_temp_core(t: Seq<char>, prefix: Seq<char>) -> Seq<char> {
    spec_strip_suffix(spec_strip_prefix(t, prefix), "℃"@)
}

/// The temperature segment of the report: `low℃~high℃` when both bounds
/// are present, the unknown-temperature sentinel otherwise.
pub open spec fn spec_temp_segment(high: Seq<char>, low: Seq<char>) -> Seq<char> {
    if high.len() > 0 && low.len() > 0 {
        spec_temp_core(low, "低温"@) + "℃~"@ + spec_temp_core(high, "高温"@) + "℃"@
    } else {
        "温度未知"@
    }
}

/// The whole report: weather kind, temperature segment, then wind
/// direction and level on the second line.
pub open spec fn spec_report(
    kind: Seq<char>,
    high: Seq<char>,
    low: Seq<char>,
    fx: Seq<char>,
    fl: Seq<char>,
) -> Seq<char> {
    kind + " "@ + spec_temp_segment(high, low) + "\n"@ + fx + fl
}

impl ForecastFields {
    /// The report these fields render to.
    pub open spec fn spec_report_chars(self) -> Seq<char> {
        spec_report(self.kind@, self.high@, self.low@, self.fx@, self.fl@)
    }
}

/// Renders the temperature segment from the raw high/low fields.
pub fn temp_segment(high: &str, low: &str) -> (r: String)
    ensures
        r@ == spec_temp_segment(high@, low@),
{
    let hlen = high.unicode_len();
    let llen = low.unicode_len();
    if hlen > 0 && llen > 0 {
        let lcore = strip_suffix_str(strip_prefix_str(low, "低温").as_str(), "℃");
        let hcore = strip_suffix_str(strip_prefix_str(high, "高温").as_str(), "℃");
        let r = lcore.concat("℃~").concat(hcore.as_str()).concat("℃");
        proof {
            assert(r@ =~= spec_temp_segment(high@, low@));
        }
        r
    } else {
        String::from_str("温度未知")
    }
}

/// Renders the full report string for one forecast entry.
pub fn render_report(f: &ForecastFields) -> (r: String)
    ensures
        r@ == f.spec_report_chars(),
{
    let temp = temp_segment(f.high.as_str(), f.low.as_str());
    let r = f.kind.clone().concat(" ").concat(temp.as_str()).concat("\n").concat(
        f.fx.as_str(),
    ).concat(f.fl.as_str());
    proof {
        assert(r@ =~= f.spec_report_chars());
    }
    r
}

/// A field's characters, or the sentinel where the field is absent.
pub open spec fn spec_field_or(v: Option<Seq<char>>, sentinel: Seq<char>) -> Seq<char> {
    match v {
        Some(s) => s,
        None => sentinel,
    }
}

/// The characters of an optional field.
pub open spec fn spec_opt_chars(v: Option<String>) -> Option<Seq<char>> {
    match v {
        Some(s) => Some(s@),
        None => None,
    }
}

/// The report rendered from the five optional fields after each absent
/// one degrades to its sentinel: the unknown-kind marker for the weather
/// kind and the wind direction, the empty string for the temperature
/// bounds and the wind level.
pub open spec fn spec_default_report(
    kind: Option<Seq<char>>,
    high: Option<Seq<char>>,
    low: Option<Seq<char>>,
    fx: Option<Seq<char>>,
    fl: Option<Seq<char>>,
) -> Seq<char> {
    spec_report(
        spec_field_or(kind, "未知"@),
        spec_field_or(high, ""@),
        spec_field_or(low, ""@),
        spec_field_or(fx, "未知"@),
        spec_field_or(fl, ""@),
    )
}

/// The field's string if present, else the given sentinel.
pub fn field_or_sentinel(v: Option<String>, sentinel: &str) -> (r: String)
    ensures
        r@ == spec_field_or(spec_opt_chars(v), sentinel@),
{
    match v {
        Some(s) => s,
        None => String::from_str(sentinel),
    }
}

/// Renders the report for one forecast entry whose fields may each be
/// absent: every absent field degrades to its sentinel, and a report is
/// always produced — field degradation never fails the report as a whole.
pub fn report_of_options(
    kind: Option<String>,
    high: Option<String>,
    low: Option<String>,
    fx: Option<String>,
    fl: Option<String>,
) -> (r: String)
    ensures
        r@ == spec_default_report(
            spec_opt_chars(kind),
            spec_opt_chars(high),
            spec_opt_chars(low),
            spec_opt_chars(fx),
            spec_opt_chars(fl),
        ),
{
    let f = ForecastFields {
        kind: field_or_sentinel(kind, "未知"),
        high: field_or_sentinel(high, ""),
        low: field_or_sentinel(low, ""),
        fx: field_or_sentinel(fx, "未知"),
        fl: field_or_sentinel(fl, ""),
    };
    render_report(&f)
}

/// serde_json's JSON document type, opaque to the verifier.
#[verifier::external_type_specification]
#[verifier::external_body]
pub struct ExJsonValue(serde_json::Value);

/// serde_json's error type, opaque to the verifier.
#[verifier::external_type_specification]
#[verifier::external_body]
pub struct ExJsonError(serde_json::Error);

/// Whether serde_json::from_str accepts the text as a JSON document.
pub uninterp spec fn json_parses(s: Seq<char>) -> bool;

/// The top-level object keys of the document the text parses to.
pub uninterp spec fn json_top_keys(s: Seq<char>) -> Set<Seq<char>>;

/// The object keys a JSON value holds; a value that is not an object
/// holds none.
pub uninterp spec fn json_keys(v: serde_json::Value) -> Set<Seq<char>>;

/// The array length of a JSON value; a value that is not an array has
/// length 0.
pub uninterp spec fn json_len(v: serde_json::Value) -> nat;

/// The string content of a JSON value, if the value is a string.
pub uninterp spec fn json_str(v: serde_json::Value) -> Option<Seq<char>>;

/// Relies on serde_json::from_str: a document comes back exactly when
/// the text is a JSON document, and what one text parses to — here its
/// top-level keys — is a function of that text alone.
#[verifier::external_body]
fn parse_json(body: &str) -> (r: Result<serde_json::Value, serde_json::Error>)
    ensures
        r is Ok <==> json_parses(body@),
        (r matches Ok(v) ==> json_keys(v) == json_top_keys(body@)),
{
    serde_json::from_str(body)
}

/// Relies on serde_json::Value::get with a string key: a member comes
/// back exactly when the key is among the object's keys.
#[verifier::external_body]
fn json_get_key<'a>(v: &'a serde_json::Value, key: &str) -> (r: Option<&'a serde_json::Value>)
    ensures
        r is Some <==> json_keys(*v).contains(key@),
{
    v.get(key)
}

/// Relies on serde_json::Value::get with an array index: an element
/// comes back exactly when the index is below the array's length.
#[verifier::external_body]
fn json_get_index<'a>(v: &'a serde_json::Value, i: usize) -> (r: Option<&'a serde_json::Value>)
    ensures
        r is Some <==> i < json_len(*v),
{
    v.get(i)
}

/// Relies on serde_json::Value::as_str: the content of a JSON string
/// value, `None` for every other kind.
pub assume_specification[ serde_json::Value::as_str ](v: &serde_json::Value) -> (r: Option<
    &str,
>)
    ensures
        (r matches Some(s) ==> json_str(*v) == Some(s@)),
        r is None ==> json_str(*v) is None,
;

/// The string content of an optional member: `None` when the member is
/// absent or is not a string.
fn value_as_string(v: Option<&serde_json::Value>) -> (r: Option<String>)
    ensures
        v is None ==> r is None,
        (v matches Some(val) ==> match r {
            Some(s) => json_str(*val) == Some(s@),
            None => json_str(*val) is None,
        }),
{
    match v {
        None => None,
        Some(val) => match val.as_str() {
            Some(s) => Some(s.to_owned()),
            None => None,
        },
    }
}

/// Decodes one weather response body of the fixed shape
/// `{ data: { forecast: [ { type, high, low, fx, fl }, .. ] } }` into the
/// report string. A body that is not JSON is the bad-json error, exactly;
/// a document without the top-level "data" member is the missing-data
/// error, exactly; the missing-forecast error can only arise past those
/// two; and every successful result is the sentinel-defaulted rendering
/// of the entry's fields. Which of the last two happens is decided by the
/// data member's content, which stays opaque here.
pub fn decode_weather(body: &str) -> (r: Result<String, WeatherError>)
    ensures
        (r == Err::<String, WeatherError>(WeatherError::BadJson) <==> !json_parses(body@)),
        (r == Err::<String, WeatherError>(WeatherError::MissingData) <==> (json_parses(body@)
            && !json_top_keys(body@).contains("data"@))),
        r == Err::<String, WeatherError>(WeatherError::MissingForecast) ==> (json_parses(body@)
            && json_top_keys(body@).contains("data"@)),
        r is Err ==> (r == Err::<String, WeatherError>(WeatherError::BadJson) || r == Err::<
            String,
            WeatherError,
        >(WeatherError::MissingData) || r == Err::<String, WeatherError>(
            WeatherError::MissingForecast,
        )),
        (r matches Ok(s) ==> (json_parses(body@) && json_top_keys(body@).contains("data"@) && (
        exists|k: Option<Seq<char>>, h: Option<Seq<char>>, l: Option<Seq<char>>, x: Option<
            Seq<char>,
        >, f: Option<Seq<char>>| s@ == spec_default_report(k, h, l, x, f)))),
{
    let parsed = parse_json(body);
    let doc = match parsed {
        Ok(v) => v,
        Err(_) => {
            return Err(WeatherError::BadJson);
        },
    };
    let data = match json_get_key(&doc, "data") {
        Some(d) => d,
        None => {
            return Err(WeatherError::MissingData);
        },
    };
    let entry = match json_get_key(data, "forecast") {
        Some(list) => match json_get_index(list, 0) {
            Some(first) => first,
            None => {
                return Err(WeatherError::MissingForecast);
            },
        },
        None => {
            return Err(WeatherError::MissingForecast);
        },
    };
    let kind = value_as_string(json_get_key(entry, "type"));
    let high = value_as_string(json_get_key(entry, "high"));
    let low = value_as_string(json_get_key(entry, "low"));
    let fx = value_as_string(json_get_key(entry, "fx"));
    let fl = value_as_string(json_get_key(entry, "fl"));
    let report = report_of_options(kind, high, low, fx, fl);
    Ok(report)
}

/// The fixed weather endpoint with a cache-busting query value.
pub open spec fn spec_weather_url(n: nat) -> Seq<char> {
    "http://t.weather.itboy.net/api/weather/city/101210408?_t="@ + spec_udecimal(n)
}

/// Builds the endpoint URL for one cache-busting value.
pub fn weather_url(cache_bust: u32) -> (r: String)
    ensures
        r@ == spec_weather_url(cache_bust as nat),
{
    let r = String::from_str("http://t.weather.itboy.net/api/weather/city/101210408?_t=").concat(
        u32_decimal(cache_bust).as_str(),
    );
    proof {
        assert(r@ =~= spec_weather_url(cache_bust as nat));
    }
    r
}

/// Relies on rand::random: draws a value from the thread-local generator.
/// Nothing is assumed of the outcome.
pub assume_specification<T>[ rand::random::<T> ]() -> (r: T)
    where
        rand::distributions::Standard: rand::distributions::Distribution<T>,
;

/// The endpoint URL with a freshly drawn cache-busting value.
pub fn fresh_weather_url() -> (r: String)
    ensures
        exists|n: nat| r@ == spec_weather_url(n),
{
    let t = rand::random::<u32>();
    let r = weather_url(t);
    proof {
        assert(r@ == spec_weather_url(t as nat));
    }
    r
}

} // verus!
