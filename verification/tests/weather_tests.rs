use nooku::json::extract_condition_code;
use nooku::weather::{get_weather, FetchReply, Weather, WeatherData, WeatherError, COOLDOWN_MILLIS};

fn report(id: &str) -> FetchReply {
    FetchReply::Body(format!(
        "{{\"coord\":{{\"lon\":-79.81,\"lat\":34.22}},\"weather\":[{{\"id\":{},\"main\":\"x\"}}],\"base\":\"stations\"}}",
        id
    ))
}

#[test]
fn from_id_classifies_by_leading_digit() {
    assert_eq!(Weather::from_id("200"), Weather::Rainy);
    assert_eq!(Weather::from_id("311"), Weather::Rainy);
    assert_eq!(Weather::from_id("502"), Weather::Rainy);
    assert_eq!(Weather::from_id("601"), Weather::Snowy);
    assert_eq!(Weather::from_id("741"), Weather::Unknown);
    assert_eq!(Weather::from_id("800"), Weather::Clear);
    assert_eq!(Weather::from_id("804"), Weather::Clear);
}

#[test]
fn from_id_leaves_the_rest_unknown() {
    assert_eq!(Weather::from_id(""), Weather::Unknown);
    assert_eq!(Weather::from_id("100"), Weather::Unknown);
    assert_eq!(Weather::from_id("900"), Weather::Unknown);
    assert_eq!(Weather::from_id("abc"), Weather::Unknown);
    assert_eq!(Weather::from_id("\"800\""), Weather::Unknown);
    assert_eq!(Weather::from_id("null"), Weather::Unknown);
}

#[test]
fn digit_of_each_class() {
    assert_eq!(Weather::Clear.digit(), 0);
    assert_eq!(Weather::Rainy.digit(), 1);
    assert_eq!(Weather::Snowy.digit(), 2);
    assert_eq!(Weather::Unknown.digit(), 0);
}

#[test]
fn new_holder_is_clear_at_the_epoch() {
    let data = WeatherData::new();
    assert_eq!(data.last_call, 0);
    assert_eq!(data.cached_weather, Weather::Clear);
    assert_eq!(data.playing_weather, Weather::Clear);
}

#[test]
fn cooldown_is_ten_minutes_and_strict() {
    assert_eq!(COOLDOWN_MILLIS, 600_000);
    let data = WeatherData { last_call: 1_000, cached_weather: Weather::Snowy, playing_weather: Weather::Clear };
    assert!(!data.fetch_due(1_000));
    assert!(!data.fetch_due(601_000));
    assert!(data.fetch_due(601_001));
    assert!(!data.fetch_due(0));
}

#[test]
fn fetch_due_does_not_overflow() {
    let early = WeatherData { last_call: i64::MIN, cached_weather: Weather::Clear, playing_weather: Weather::Clear };
    assert!(early.fetch_due(i64::MAX));
    let late = WeatherData { last_call: i64::MAX, cached_weather: Weather::Clear, playing_weather: Weather::Clear };
    assert!(!late.fetch_due(i64::MIN));
}

#[test]
fn condition_code_is_read_from_the_report() {
    assert_eq!(
        extract_condition_code("{\"weather\":[{\"id\":800,\"main\":\"Clear\"}],\"id\":4}"),
        Some(String::from("800"))
    );
    assert_eq!(
        extract_condition_code("{\"weather\":[{\"id\":501},{\"id\":701}]}"),
        Some(String::from("501"))
    );
    assert_eq!(
        extract_condition_code("{\"weather\":[{\"id\":\"600\"}]}"),
        Some(String::from("\"600\""))
    );
}

#[test]
fn condition_code_is_missing_from_a_malformed_report() {
    assert_eq!(extract_condition_code(""), None);
    assert_eq!(extract_condition_code("not json"), None);
    assert_eq!(extract_condition_code("{}"), None);
    assert_eq!(extract_condition_code("[1,2]"), None);
    assert_eq!(extract_condition_code("{\"weather\":[]}"), None);
    assert_eq!(extract_condition_code("{\"weather\":{\"id\":800}}"), None);
    assert_eq!(extract_condition_code("{\"weather\":[{\"main\":\"Clear\"}]}"), None);
    assert_eq!(extract_condition_code("{\"cod\":401,\"message\":\"Invalid API key\"}"), None);
}

#[test]
fn get_weather_within_cooldown_returns_the_cached_class() {
    let mut data = WeatherData { last_call: 5_000, cached_weather: Weather::Snowy, playing_weather: Weather::Rainy };
    let before = data;
    assert_eq!(get_weather(&mut data, 605_000, &report("800")), Ok(Weather::Snowy));
    assert_eq!(data, before);
    assert_eq!(get_weather(&mut data, 10_000, &FetchReply::Failed), Ok(Weather::Snowy));
    assert_eq!(data, before);
}

#[test]
fn get_weather_past_cooldown_caches_the_new_class() {
    let mut data = WeatherData::new();
    assert_eq!(get_weather(&mut data, 1_700_000_000_000, &report("500")), Ok(Weather::Rainy));
    assert_eq!(data.last_call, 1_700_000_000_000);
    assert_eq!(data.cached_weather, Weather::Rainy);
    assert_eq!(data.playing_weather, Weather::Clear);
}

#[test]
fn get_weather_reports_a_failed_request() {
    let mut data = WeatherData { last_call: 0, cached_weather: Weather::Rainy, playing_weather: Weather::Rainy };
    assert_eq!(get_weather(&mut data, 700_000, &FetchReply::Failed), Err(WeatherError::Network));
    assert_eq!(data.last_call, 700_000);
    assert_eq!(data.cached_weather, Weather::Rainy);
    assert_eq!(data.settle(Err(WeatherError::Network)), Weather::Rainy);
}

#[test]
fn get_weather_reports_a_malformed_report() {
    let mut data = WeatherData { last_call: 0, cached_weather: Weather::Snowy, playing_weather: Weather::Clear };
    let reply = FetchReply::Body(String::from("{\"cod\":401}"));
    assert_eq!(get_weather(&mut data, 700_000, &reply), Err(WeatherError::Malformed));
    assert_eq!(data.last_call, 700_000);
    assert_eq!(data.cached_weather, Weather::Snowy);
    let mut again = WeatherData::new();
    let garbage = FetchReply::Body(String::from("<html>"));
    assert_eq!(get_weather(&mut again, 700_000, &garbage), Err(WeatherError::Malformed));
}

#[test]
fn last_call_never_goes_back() {
    let mut data = WeatherData::new();
    let mut last = data.last_call;
    let times: [i64; 6] = [900_000, 100, 900_001, 1_500_001, 1_400_000, 3_000_000];
    for now in times {
        let _ = get_weather(&mut data, now, &report("600"));
        assert!(data.last_call >= last);
        last = data.last_call;
    }
    assert_eq!(last, 3_000_000);
}

#[test]
fn two_polls_within_the_cooldown_fetch_once_and_agree() {
    let mut data = WeatherData::new();
    let first_due = data.fetch_due(1_000_000);
    let first = get_weather(&mut data, 1_000_000, &report("601"));
    let seen_first = data.settle(first);
    let second_due = data.fetch_due(1_600_000);
    let second = get_weather(&mut data, 1_600_000, &report("800"));
    let seen_second = data.settle(second);
    assert!(first_due);
    assert!(!second_due);
    assert_eq!(seen_first, Weather::Snowy);
    assert_eq!(seen_second, Weather::Snowy);
}

#[test]
fn settle_prefers_the_fresh_class() {
    let data = WeatherData { last_call: 0, cached_weather: Weather::Snowy, playing_weather: Weather::Clear };
    assert_eq!(data.settle(Ok(Weather::Rainy)), Weather::Rainy);
    assert_eq!(data.settle(Err(WeatherError::Malformed)), Weather::Snowy);
}
