use weather_mqtt::weather_code::describe_weather_code;

#[test]
fn listed_codes_map_to_their_labels() {
    assert_eq!(describe_weather_code(0), "Clear sky");
    assert_eq!(describe_weather_code(1), "Mainly clear");
    assert_eq!(describe_weather_code(2), "Partly cloudy");
    assert_eq!(describe_weather_code(3), "Overcast");
    assert_eq!(describe_weather_code(45), "Fog");
    assert_eq!(describe_weather_code(48), "Fog");
    assert_eq!(describe_weather_code(51), "Drizzle");
    assert_eq!(describe_weather_code(57), "Drizzle");
    assert_eq!(describe_weather_code(61), "Rain");
    assert_eq!(describe_weather_code(67), "Rain");
    assert_eq!(describe_weather_code(71), "Snow");
    assert_eq!(describe_weather_code(77), "Snow");
    assert_eq!(describe_weather_code(80), "Showers");
    assert_eq!(describe_weather_code(82), "Showers");
    assert_eq!(describe_weather_code(95), "Thunderstorm");
}

#[test]
fn codes_next_to_the_groups_are_unknown() {
    for code in [4u8, 44, 46, 47, 49, 50, 58, 60, 68, 70, 78, 79, 83, 94, 96, 255] {
        assert_eq!(describe_weather_code(code), "Unknown");
    }
}

#[test]
fn every_code_has_a_non_empty_label() {
    for code in 0u8..=255 {
        assert!(!describe_weather_code(code).is_empty());
    }
}
