use beautiful_clock::weather::{
    decode_weather, field_or_sentinel, fresh_weather_url, render_report, report_of_options,
    temp_segment, weather_url, ForecastFields, WeatherError,
};

#[test]
fn full_forecast_renders_report() {
    let body = "{\"data\":{\"forecast\":[{\"type\":\"晴\",\"high\":\"高温28℃\",\
                \"low\":\"低温18℃\",\"fx\":\"东风\",\"fl\":\"3级\"}]}}";
    let r = decode_weather(body);
    assert_eq!(r, Ok(String::from("晴 18℃~28℃\n东风3级")));
}

#[test]
fn missing_data_member_is_an_error() {
    let body = "{\"forecast\":[{\"type\":\"晴\"}]}";
    let r = decode_weather(body);
    assert_eq!(r, Err(WeatherError::MissingData));
}

#[test]
fn bad_json_is_an_error() {
    assert_eq!(decode_weather("not a json document"), Err(WeatherError::BadJson));
}

#[test]
fn missing_forecast_is_an_error() {
    assert_eq!(decode_weather("{\"data\":{}}"), Err(WeatherError::MissingForecast));
    assert_eq!(
        decode_weather("{\"data\":{\"forecast\":[]}}"),
        Err(WeatherError::MissingForecast)
    );
}

#[test]
fn empty_bounds_render_unknown_temperature() {
    assert_eq!(temp_segment("", ""), "温度未知");
    assert_eq!(temp_segment("高温28℃", ""), "温度未知");
    assert_eq!(temp_segment("", "低温18℃"), "温度未知");
    let body = "{\"data\":{\"forecast\":[{\"type\":\"晴\",\"high\":\"\",\
                \"low\":\"\",\"fx\":\"东风\",\"fl\":\"3级\"}]}}";
    assert_eq!(decode_weather(body), Ok(String::from("晴 温度未知\n东风3级")));
}

#[test]
fn absent_fields_degrade_to_sentinels() {
    let body = "{\"data\":{\"forecast\":[{}]}}";
    assert_eq!(decode_weather(body), Ok(String::from("未知 温度未知\n未知")));
}

#[test]
fn non_string_fields_degrade_to_sentinels() {
    let body = "{\"data\":{\"forecast\":[{\"type\":1,\"high\":5,\"low\":[],\
                \"fx\":null,\"fl\":{}}]}}";
    assert_eq!(decode_weather(body), Ok(String::from("未知 温度未知\n未知")));
}

#[test]
fn sentinel_defaulting_is_fixed() {
    assert_eq!(field_or_sentinel(Some(String::from("晴")), "未知"), "晴");
    assert_eq!(field_or_sentinel(None, "未知"), "未知");
    assert_eq!(field_or_sentinel(None, ""), "");
    assert_eq!(
        report_of_options(None, None, None, None, None),
        "未知 温度未知\n未知"
    );
    assert_eq!(
        report_of_options(
            Some(String::from("晴")),
            Some(String::from("高温28℃")),
            Some(String::from("低温18℃")),
            Some(String::from("东风")),
            Some(String::from("3级")),
        ),
        "晴 18℃~28℃\n东风3级"
    );
}

#[test]
fn bounds_without_affixes_pass_through() {
    assert_eq!(temp_segment("28", "18"), "18℃~28℃");
}

#[test]
fn render_report_shapes_the_string() {
    let f = ForecastFields {
        kind: String::from("多云"),
        high: String::from("高温30℃"),
        low: String::from("低温20℃"),
        fx: String::from("北风"),
        fl: String::from("2级"),
    };
    assert_eq!(render_report(&f), "多云 20℃~30℃\n北风2级");
}

#[test]
fn error_messages_are_fixed() {
    assert_eq!(WeatherError::BadJson.message(), "Failed to parse weather data");
    assert_eq!(WeatherError::MissingData.message(), "Failed to get weather data");
    assert_eq!(WeatherError::MissingForecast.message(), "Failed to get forecast");
}

#[test]
fn url_carries_cache_buster() {
    assert_eq!(
        weather_url(42),
        "http://t.weather.itboy.net/api/weather/city/101210408?_t=42"
    );
    assert_eq!(
        weather_url(0),
        "http://t.weather.itboy.net/api/weather/city/101210408?_t=0"
    );
}

#[test]
fn fresh_url_has_the_fixed_endpoint() {
    let url = fresh_weather_url();
    let prefix = "http://t.weather.itboy.net/api/weather/city/101210408?_t=";
    assert!(url.starts_with(prefix));
    let tail = &url[prefix.len()..];
    assert!(!tail.is_empty());
    assert!(tail.bytes().all(|b| b.is_ascii_digit()));
}
