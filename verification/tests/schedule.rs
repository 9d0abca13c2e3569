use weather_station::{publish_failure_message, wait_duration_nanos, HeartbeatCounter, MqttConfig};

const SECOND: u128 = 1_000_000_000;

#[test]
fn waits_until_the_next_whole_minute() {
    assert_eq!(wait_duration_nanos(1, 0, 0), 60 * SECOND);
    assert_eq!(wait_duration_nanos(1, 30, 0), 30 * SECOND);
    assert_eq!(wait_duration_nanos(1, 59, 999_999_999), 1);
    assert_eq!(wait_duration_nanos(5, 15, 500_000_000), 4 * 60 * SECOND + 44 * SECOND + 500_000_000);
}

#[test]
fn a_passed_moment_waits_one_second() {
    assert_eq!(wait_duration_nanos(0, 0, 0), 0);
    assert_eq!(wait_duration_nanos(0, 10, 0), SECOND);
    // a leap second runs past the end of a one-minute period
    assert_eq!(wait_duration_nanos(1, 59, 1_500_000_000), SECOND);
}

#[test]
fn heartbeat_every_tenth_reading() {
    let mut c = HeartbeatCounter::new();
    let due: Vec<bool> = (0..30).map(|_| c.tick()).collect();
    for (i, d) in due.iter().enumerate() {
        assert_eq!(*d, (i + 1) % 10 == 0, "reading {}", i + 1);
    }
}

#[test]
fn publish_failure_text() {
    assert_eq!(publish_failure_message("timeout"), "MQTT publish failed: timeout");
}

#[test]
fn default_broker_settings() {
    let c = MqttConfig::default();
    assert_eq!(c.broker, "192.168.8.111");
    assert_eq!(c.port, 1883);
    assert_eq!(c.username, "homeassistant");
    assert_eq!(c.password, "3333");
    assert_eq!(c.topic_prefix, "homeassistant/sensor/0x19418021");
    assert_eq!(c.client_id, "weather_station_rust");
}

#[test]
fn default_settings() {
    let c = weather_station::AppConfig::default();
    assert_eq!(c.weather_station.vendor_id, 0x1941);
    assert_eq!(c.weather_station.product_id, 0x8021);
    assert_eq!(c.weather_station.period_minutes, 1);
    assert_eq!(c.weather_station.max_rain_jump_tenths, 100);
    assert_eq!(c.mqtt.broker, "192.168.8.111");
    assert_eq!(c.language, "en");
}
