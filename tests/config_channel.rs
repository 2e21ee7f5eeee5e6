use weather_mqtt::config::{
    is_config_topic, ConfigChannel, Configuration, Coordinate, ListenerAction, ListenerEvent,
    CONFIG_TOPIC,
};

fn config(interval_seconds: u64, latitude: f64, longtitude: f64) -> Configuration {
    Configuration {
        interval_seconds,
        coordinate: Coordinate {
            latitude_bits: latitude.to_bits(),
            longtitude_bits: longtitude.to_bits(),
        },
    }
}

#[test]
fn default_configuration_is_ten_seconds_at_delft() {
    let d = Configuration::default();
    assert_eq!(d, config(10, 52.0155872, 4.3497796));
}

#[test]
fn new_channel_holds_initial_value() {
    let (channel, reader) = ConfigChannel::new(config(7, 1.5, -2.5));
    assert_eq!(channel.get(), config(7, 1.5, -2.5));
    assert_eq!(reader.latest(), config(7, 1.5, -2.5));
}

#[test]
fn set_replaces_the_whole_value() {
    let (mut channel, reader) = ConfigChannel::new(Configuration::default());
    channel.set(config(3, 10.0, 20.0));
    assert_eq!(channel.get(), config(3, 10.0, 20.0));
    assert_eq!(reader.latest(), config(3, 10.0, 20.0));
    channel.set(config(4, 11.0, 21.0));
    assert_eq!(channel.get(), config(4, 11.0, 21.0));
}

#[test]
fn set_without_readers_still_stores() {
    let (mut channel, reader) = ConfigChannel::new(Configuration::default());
    drop(reader);
    channel.set(config(30, 0.0, 0.0));
    assert_eq!(channel.get(), config(30, 0.0, 0.0));
}

#[test]
fn valid_config_message_is_applied() {
    let (mut channel, reader) = ConfigChannel::new(Configuration::default());
    let ev = ListenerEvent::Message {
        topic: "weather/configs".to_string(),
        decoded: Some(config(5, 10.0, 20.0)),
    };
    assert_eq!(channel.handle_event(&ev), ListenerAction::Applied);
    assert_eq!(channel.get(), config(5, 10.0, 20.0));
    assert_eq!(reader.latest(), config(5, 10.0, 20.0));
}

#[test]
fn malformed_config_message_leaves_value_unchanged() {
    let (mut channel, _reader) = ConfigChannel::new(config(12, 1.0, 2.0));
    let ev = ListenerEvent::Message { topic: CONFIG_TOPIC.to_string(), decoded: None };
    assert_eq!(channel.handle_event(&ev), ListenerAction::Rejected);
    assert_eq!(channel.get(), config(12, 1.0, 2.0));
}

#[test]
fn message_on_other_topic_is_ignored() {
    let (mut channel, _reader) = ConfigChannel::new(config(12, 1.0, 2.0));
    let ev = ListenerEvent::Message {
        topic: "weather/current".to_string(),
        decoded: Some(config(1, 0.0, 0.0)),
    };
    assert_eq!(channel.handle_event(&ev), ListenerAction::Ignored);
    assert_eq!(channel.get(), config(12, 1.0, 2.0));
}

#[test]
fn other_events_and_transport_errors() {
    let (mut channel, _reader) = ConfigChannel::new(config(12, 1.0, 2.0));
    assert_eq!(channel.handle_event(&ListenerEvent::Other), ListenerAction::Ignored);
    assert_eq!(channel.handle_event(&ListenerEvent::TransportError), ListenerAction::Stop);
    assert_eq!(channel.get(), config(12, 1.0, 2.0));
}

#[test]
fn config_topic_matches_exactly() {
    assert!(is_config_topic("weather/configs"));
    assert!(!is_config_topic("weather/config"));
    assert!(!is_config_topic("weather/configs/"));
    assert!(!is_config_topic(""));
}
