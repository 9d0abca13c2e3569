//! Verified core of a reader for the Dreamlink WH1080 USB weather station
//! that reports its measurements to Home Assistant over MQTT.

mod config;
mod discovery;
mod schedule;
mod station;
mod status;
mod text;
mod translations;

pub use config::{
    AppConfig, MqttConfig, WeatherStationConfig,
};
pub use discovery::{
    alive, create_device_info, create_sensor_definitions, create_status_sensor_config,
    device_is_station, diagnostics_topic, each_sensor_shows_its_key, heartbeat_status,
    heartbeat_topic, optional_text, sensor_config_topic, sensor_matches, sensor_rows,
    sensor_state_topic, sensors_named_in_their_language, sensors_show_distinct_measurements,
    status_config_topic, status_key, status_state_topic, topic, value_matches, Availability,
    DeviceInfo, Quantity, SensorDefinition, SensorValue, StatusSensorConfig,
};
pub use schedule::{
    count_after, heartbeat_every_tenth_reading, heartbeat_step, next_reading_on_whole_minute,
    publish_failure_message, publish_failure_text, wait_duration_nanos, wait_nanos,
    FALLBACK_WAIT_NANOS, HEARTBEAT_INTERVAL, HeartbeatCounter, NANOS_PER_SECOND,
};
pub use station::{
    block_request, check_block_length, current_position, decode, decode_reading, error_text,
    find_weather_device, first_total_is_kept, le_u16, rain_rise_within_limit, rain_step,
    record_fields_at_their_places, record_position_little_endian, request_frame,
    request_names_its_offset, stops_search, temperature_at, BLOCK_LEN, DeviceSearch,
    FIXED_BLOCK_MARKER, FIXED_BLOCK_OFFSET, RainGauge, RainStep, Reading, StationError, Temperature,
};
pub use status::{
    details_message, details_steps, details_summary, failure_text_shown_in_full,
    format_device_status, get_status_details, names_denied_access, names_missing_device,
    names_read_failure, russian, station_failures_reported_by_kind, status_for_error, status_text,
    texts, DeviceStatus, StatusDetails,
};
pub use text::{
    chars_differ_from, chars_of, contains, decimal_text, differs_from, differs_from_all,
    digit_chars, fits_nowhere_from, hex_text, is_digit_char, lemma_absent_before_digits,
    lemma_decimal_digits, lemma_hex_digits, lemma_pairwise_differ, mismatch_at, occurs_in,
    pairwise_differ_from, push_decimal, push_hex, str_equal, texts_differ,
};
pub use translations::{
    compass_points_run_clockwise, default_names, english_names, english_pairs, entries_map,
    entry_pairs, every_compass_point_named, fallback_language, languages_name_the_same_keys,
    last_wins, pair_keys, reported_direction_is_named, russian_names, russian_pairs, translate,
    unnamed_key_shown_as_itself, wind_key, Translations,
};
