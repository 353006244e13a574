use tool_orchestrator::args::{string_arg, ArgLookup};
use tool_orchestrator::catalog::default_catalog;
use tool_orchestrator::orchestrator::Config;
use tool_orchestrator::text::{str_eq, strip_prefix_of};
use tool_orchestrator::timestamp::matches_rfc3339;
use tool_orchestrator::tools::{hello_world, page_text_result};
use tool_orchestrator::weather::{
    build_weather_url, status_is_success, truncate_decimal, weather_body_text,
};

#[test]
fn config_defaults_match_the_documented_values() {
    let c = Config::default();
    assert_eq!(c.workspace, "secondstate");
    assert_eq!(c.channel, "test-flow");
    assert_eq!(c.trigger_word, "tool_calls");
    assert_eq!(c.weather_api_key, "fake_api_key");
    assert_eq!(c.model, "gpt-3.5-turbo-0613");
    assert_eq!(c.max_tokens, 512);
}

#[test]
fn catalog_lists_the_four_tools_with_their_keys() {
    let catalog = default_catalog();
    assert_eq!(catalog.len(), 4);
    assert_eq!(catalog[0].name, "getWeather");
    assert_eq!(catalog[0].params.len(), 1);
    assert_eq!(catalog[0].params[0].name, "city");
    assert!(catalog[0].params[0].required);
    assert_eq!(catalog[1].name, "scraper");
    assert_eq!(catalog[1].params[0].name, "url");
    assert_eq!(catalog[2].name, "getTimeOfDay");
    assert!(catalog[2].params.is_empty());
    assert_eq!(catalog[3].name, "helloWorld");
    assert_eq!(catalog[3].params[0].name, "appendString");
}

#[test]
fn string_equality_compares_by_characters() {
    assert!(str_eq("getWeather", "getWeather"));
    assert!(!str_eq("getWeather", "getweather"));
    assert!(!str_eq("a", "ab"));
    assert!(str_eq("", ""));
}

#[test]
fn prefix_stripping_keeps_the_remainder() {
    assert_eq!(strip_prefix_of("tool_calls now", "tool_calls"), Some(" now".to_string()));
    assert_eq!(strip_prefix_of("tool_calls", "tool_calls"), Some("".to_string()));
    assert_eq!(strip_prefix_of("tool", "tool_calls"), None);
    assert_eq!(strip_prefix_of("say tool_calls", "tool_calls"), None);
}

#[test]
fn argument_lookup_tells_the_three_outcomes_apart() {
    assert!(matches!(string_arg("{not json", "city"), ArgLookup::NoParse));
    assert!(matches!(string_arg("[\"city\"]", "city"), ArgLookup::NoParse));
    assert!(matches!(string_arg("{\"city\": 3}", "city"), ArgLookup::NoParse));
    assert!(matches!(string_arg("{}", "city"), ArgLookup::Missing));
    assert!(matches!(string_arg("{\"town\":\"Ely\"}", "city"), ArgLookup::Missing));
    match string_arg("{\"city\":\"Ely\",\"country\":\"UK\"}", "city") {
        ArgLookup::Found(v) => assert_eq!(v, "Ely"),
        _ => panic!("key was not found"),
    }
}

#[test]
fn greeting_appends_the_argument() {
    assert_eq!(hello_world("John"), "Hello, world! John");
    assert_eq!(hello_world(""), "Hello, world! ");
}

#[test]
fn page_text_passes_through_or_reports_failure() {
    assert_eq!(page_text_result(Some("body".to_string())), "body");
    assert_eq!(page_text_result(None), "failed to get webpage");
}

#[test]
fn rfc3339_checker_accepts_real_timestamps() {
    assert!(matches_rfc3339("1996-12-19T16:39:57-08:00"));
    assert!(matches_rfc3339("2018-01-26T18:30:09.453+00:00"));
    assert!(matches_rfc3339("2018-01-26T18:30:09Z"));
    assert!(matches_rfc3339("+12024-01-26T18:30:09.453829+05:30"));
}

#[test]
fn rfc3339_checker_rejects_other_text() {
    assert!(!matches_rfc3339(""));
    assert!(!matches_rfc3339("hello"));
    assert!(!matches_rfc3339("2018-01-26 18:30:09"));
    assert!(!matches_rfc3339("2018-01-26T18:30:09"));
    assert!(!matches_rfc3339("201-01-26T18:30:09Z"));
    assert!(!matches_rfc3339("2018-01-26T18:30:09.Z"));
}

#[test]
fn truncation_drops_the_fraction_toward_zero() {
    assert_eq!(truncate_decimal("10.0"), Some("10".to_string()));
    assert_eq!(truncate_decimal("15.9"), Some("15".to_string()));
    assert_eq!(truncate_decimal("5.4"), Some("5".to_string()));
    assert_eq!(truncate_decimal("7"), Some("7".to_string()));
    assert_eq!(truncate_decimal("-5.4"), Some("-5".to_string()));
    assert_eq!(truncate_decimal("-0.5"), Some("0".to_string()));
    assert_eq!(truncate_decimal("1e3"), None);
    assert_eq!(truncate_decimal("."), None);
    assert_eq!(truncate_decimal("12."), None);
    assert_eq!(truncate_decimal(""), None);
}

#[test]
fn weather_url_is_templated_with_city_and_key() {
    assert_eq!(
        build_weather_url("London", "k1"),
        "https://api.openweathermap.org/data/2.5/weather?q=London&units=metric&appid=k1"
    );
}

#[test]
fn status_success_range_is_two_hundreds() {
    assert!(!status_is_success(199));
    assert!(status_is_success(200));
    assert!(status_is_success(299));
    assert!(!status_is_success(300));
    assert!(!status_is_success(404));
}

#[test]
fn weather_summary_has_the_exact_lines() {
    let body = "{\"weather\":[{\"main\":\"Clouds\"}],\"main\":{\"temp_min\":10.0,\"temp_max\":15.9},\"wind\":{\"speed\":5.4}}"
    .as_bytes()
    .to_vec();
    let text = weather_body_text("London", true, &body);
    let expected = "\nToday in London\nClouds\nLow temperature: 10 \u{b0}C,\nHigh temperature: 15 \u{b0}C,\nWind Speed: 5 km/h";
    assert_eq!(text, expected);
}

#[test]
fn weather_summary_on_failure_status_is_the_fixed_text() {
    let body = b"{}".to_vec();
    assert_eq!(weather_body_text("Nowhere", false, &body), "No city or incorrect spelling");
}

#[test]
fn weather_summary_on_malformed_body_is_the_fixed_text() {
    assert_eq!(
        weather_body_text("London", true, &b"not json".to_vec()),
        "No city or incorrect spelling"
    );
    assert_eq!(
        weather_body_text("London", true, &b"{\"weather\":[]}".to_vec()),
        "No city or incorrect spelling"
    );
}

#[test]
fn weather_summary_without_conditions_says_unknown() {
    let body = "{\"weather\":[],\"main\":{\"temp_min\":1.5,\"temp_max\":2.5},\"wind\":{\"speed\":0.4}}"
    .as_bytes()
    .to_vec();
    let text = weather_body_text("Oslo", true, &body);
    assert!(text.contains("\nUnknown\n"), "{}", text);
    assert!(text.contains("Low temperature: 1 \u{b0}C"), "{}", text);
    assert!(text.contains("Wind Speed: 0 km/h"), "{}", text);
}

#[test]
fn weather_summary_keeps_negative_whole_degrees() {
    let body = "{\"weather\":[{\"main\":\"Snow\"}],\"main\":{\"temp_min\":-5.4,\"temp_max\":-0.5},\"wind\":{\"speed\":3.0}}"
    .as_bytes()
    .to_vec();
    let text = weather_body_text("Tromso", true, &body);
    assert!(text.contains("Low temperature: -5 \u{b0}C"), "{}", text);
    assert!(text.contains("High temperature: 0 \u{b0}C"), "{}", text);
}
