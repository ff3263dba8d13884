use mqtt_sensor::connection::{ConnectionSettings, KEEP_ALIVE_SECS, REQUEST_CAPACITY};
use mqtt_sensor::encoding::{Codec, CodecError};
use mqtt_sensor::publisher::{pause_follows, SensorDataPublisher};
use mqtt_sensor::qos::QosLevel;
use mqtt_sensor::sampling::{draw_signal_strength, SIGNAL_CEILING, SIGNAL_FLOOR};
use mqtt_sensor::sensor::{assemble, PayloadTier, Timestamp};
use mqtt_sensor::subscriber::{MessageOutcome, SensorDataSubscriber};
use std::time::Duration;

fn clock() -> Timestamp {
    Timestamp { secs: 1_700_000_000, nanos: 5 }
}

fn publisher(encoding: &str, qos: u8) -> SensorDataPublisher {
    SensorDataPublisher::new("localhost".to_string(), 1883, encoding.to_string(), qos)
}

fn subscriber(encoding: &str, qos: u8) -> SensorDataSubscriber {
    SensorDataSubscriber::new("localhost".to_string(), 1883, encoding.to_string(), qos)
}

#[test]
fn connection_settings_hold_the_defaults() {
    let settings = ConnectionSettings::new("probe", "broker.example".to_string(), 8883);
    assert_eq!(settings.client_id, "probe");
    assert_eq!(settings.broker, "broker.example");
    assert_eq!(settings.port, 8883);
    assert_eq!(settings.keep_alive_secs, 60);
    assert_eq!(settings.request_capacity, 10);
    assert_eq!(KEEP_ALIVE_SECS, 60);
    assert_eq!(REQUEST_CAPACITY, 10);
}

#[test]
fn client_options_say_what_the_settings_say() {
    let mut settings = ConnectionSettings::new("probe", "broker.example".to_string(), 8883);
    let options = settings.to_options();
    assert_eq!(options.client_id(), "probe");
    assert_eq!(options.broker_address(), ("broker.example".to_string(), 8883));
    assert_eq!(options.keep_alive(), Duration::from_secs(60));
    settings.keep_alive_secs = 7;
    assert_eq!(settings.to_options().keep_alive(), Duration::from_secs(7));
    settings.keep_alive_secs = 0;
    assert_eq!(settings.to_options().keep_alive(), Duration::from_secs(0));
}

#[test]
fn client_options_accept_any_name() {
    let settings = ConnectionSettings::new("", "".to_string(), 0);
    let options = settings.to_options();
    assert_eq!(options.client_id(), "");
    assert_eq!(options.broker_address(), ("".to_string(), 0));
}

#[test]
fn drawn_signal_strength_is_in_range() {
    let mut seen_other_than_floor = false;
    let mut seen_two_values = false;
    let first = draw_signal_strength();
    for _ in 0..2000 {
        let signal = draw_signal_strength();
        assert!(SIGNAL_FLOOR <= signal && signal < SIGNAL_CEILING);
        assert!(-100 <= signal && signal < -30);
        if signal != SIGNAL_FLOOR {
            seen_other_than_floor = true;
        }
        if signal != first {
            seen_two_values = true;
        }
    }
    assert!(seen_other_than_floor);
    assert!(seen_two_values);
}

#[test]
fn new_publisher() {
    let p = SensorDataPublisher::new("broker.example".to_string(), 1884, "cbor".to_string(), 2);
    assert_eq!(p.settings, ConnectionSettings::new("rust-publisher", "broker.example".to_string(), 1884));
    assert_eq!(p.settings.client_id, "rust-publisher");
    assert_eq!(p.encoding, "cbor");
    assert_eq!(p.qos, QosLevel::ExactlyOnce);
    assert_eq!(publisher("json", 0).qos, QosLevel::AtMostOnce);
    assert_eq!(publisher("json", 1).qos, QosLevel::AtLeastOnce);
    assert_eq!(publisher("json", 9).qos, QosLevel::AtLeastOnce);
}

#[test]
fn publisher_keeps_an_unknown_encoding_until_asked() {
    let p = publisher("yaml", 1);
    assert_eq!(p.encoding, "yaml");
    assert_eq!(p.codec(), Err(CodecError::UnsupportedEncoding));
}

#[test]
fn publisher_codec() {
    assert_eq!(publisher("json", 1).codec(), Ok(Codec::Json));
    assert_eq!(publisher("msgpack", 1).codec(), Ok(Codec::MsgPack));
    assert_eq!(publisher("cbor", 1).codec(), Ok(Codec::Cbor));
    assert_eq!(publisher("protobuf", 1).codec(), Ok(Codec::Json));
}

#[test]
fn publisher_creates_a_small_record() {
    let p = publisher("json", 1);
    let samples = vec![0, 30, 0];
    let data = p.create_sensor_data("sensor_001", "small", clock(), &samples);
    assert_eq!(data, assemble("sensor_001", PayloadTier::Small, clock(), &samples, 0));
    let data = data.unwrap();
    assert_eq!(data.signal_strength, None);
    assert_eq!(data.additional_data, None);
    let other = p.create_sensor_data("sensor_001", "tiny", clock(), &samples);
    assert_eq!(other, Some(data));
}

#[test]
fn publisher_creates_a_medium_record() {
    let p = publisher("json", 1);
    let samples = vec![1520, 4030, 6000, 1000];
    let data = p.create_sensor_data("sensor_001", "medium", clock(), &samples).unwrap();
    let signal = data.signal_strength.unwrap();
    assert!(-100 <= signal && signal < -30);
    assert_eq!(Some(data), assemble("sensor_001", PayloadTier::Medium, clock(), &samples, signal));
}

#[test]
fn publisher_creates_a_large_record() {
    let p = publisher("json", 1);
    let mut samples = vec![1520, 4030, 6000, 1000];
    for i in 0..100 {
        samples.push(i);
    }
    let data = p.create_sensor_data("sensor_001", "large", clock(), &samples).unwrap();
    let signal = data.signal_strength.unwrap();
    assert!(-100 <= signal && signal < -30);
    assert_eq!(data.sensor_readings.as_ref().map(|list| list.len()), Some(100));
    assert_eq!(data.additional_data.as_ref().map(|text| text.len()), Some(60000));
    assert_eq!(Some(data), assemble("sensor_001", PayloadTier::Large, clock(), &samples, signal));
}

#[test]
fn publisher_creates_nothing_from_samples_off_the_plan() {
    let p = publisher("json", 1);
    assert_eq!(p.create_sensor_data("s", "small", clock(), &vec![0, 30, 0, 200]), None);
    assert_eq!(p.create_sensor_data("s", "medium", clock(), &vec![0, 30, 0]), None);
    assert_eq!(p.create_sensor_data("s", "large", clock(), &vec![0, 30, 0, 200]), None);
    assert_eq!(p.create_sensor_data("s", "medium", clock(), &vec![0, 30, 0, 1500]), None);
}

#[test]
fn a_pause_follows_every_message_but_the_last() {
    assert!(pause_follows(0, 10));
    assert!(pause_follows(8, 10));
    assert!(!pause_follows(9, 10));
    assert!(!pause_follows(0, 1));
    assert!(!pause_follows(0, 0));
    assert!(!pause_follows(10, 10));
    assert!(!pause_follows(u32::MAX, u32::MAX));
    assert!(pause_follows(u32::MAX - 2, u32::MAX));
}

#[test]
fn new_subscriber() {
    let s = SensorDataSubscriber::new("broker.example".to_string(), 1884, "msgpack".to_string(), 0);
    assert_eq!(s.settings, ConnectionSettings::new("rust-subscriber", "broker.example".to_string(), 1884));
    assert_eq!(s.encoding, "msgpack");
    assert_eq!(s.qos, QosLevel::AtMostOnce);
    assert_eq!(s.message_count, 0);
    assert_eq!(subscriber("json", 2).qos, QosLevel::ExactlyOnce);
    assert_eq!(subscriber("json", 3).qos, QosLevel::AtLeastOnce);
}

#[test]
fn subscriber_codec() {
    assert_eq!(subscriber("json", 1).codec(), Ok(Codec::Json));
    assert_eq!(subscriber("msgpack", 1).codec(), Ok(Codec::MsgPack));
    assert_eq!(subscriber("cbor", 1).codec(), Ok(Codec::Cbor));
    assert_eq!(subscriber("protobuf", 1).codec(), Ok(Codec::Json));
    assert_eq!(subscriber("", 1).codec(), Err(CodecError::UnsupportedEncoding));
}

#[test]
fn subscriber_counts_decoded_messages_only() {
    let mut s = subscriber("json", 1);
    assert_eq!(s.handle_message(true), MessageOutcome::Accepted { number: 1 });
    assert_eq!(s.message_count, 1);
    assert_eq!(s.handle_message(false), MessageOutcome::Rejected);
    assert_eq!(s.message_count, 1);
    assert_eq!(s.handle_message(true), MessageOutcome::Accepted { number: 2 });
    assert_eq!(s.handle_message(true), MessageOutcome::Accepted { number: 3 });
    assert_eq!(s.message_count, 3);
    assert_eq!(s.encoding, "json");
    assert_eq!(s.qos, QosLevel::AtLeastOnce);
}

#[test]
fn subscriber_leaves_a_full_count_alone_on_a_bad_message() {
    let mut s = subscriber("json", 1);
    s.message_count = u32::MAX;
    assert_eq!(s.handle_message(false), MessageOutcome::Rejected);
    assert_eq!(s.message_count, u32::MAX);
}
