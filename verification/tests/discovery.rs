use weather_station::{
    create_device_info, create_sensor_definitions, create_status_sensor_config, decode_reading,
    diagnostics_topic, heartbeat_status, heartbeat_topic, sensor_config_topic, sensor_state_topic,
    status_config_topic, status_state_topic, Quantity, RainGauge, SensorValue, Translations,
};

const PREFIX: &str = "homeassistant/sensor/0x19418021";

#[test]
fn topics() {
    assert_eq!(sensor_config_topic(PREFIX, "wind_speed"), "homeassistant/sensor/0x19418021/wind_speed/config");
    assert_eq!(sensor_state_topic(PREFIX, "wind_speed"), "homeassistant/sensor/0x19418021/wind_speed/state");
    assert_eq!(status_config_topic(PREFIX), "homeassistant/sensor/0x19418021/device_status/config");
    assert_eq!(status_state_topic(PREFIX), "homeassistant/sensor/0x19418021/device_status/state");
    assert_eq!(diagnostics_topic(PREFIX), "homeassistant/sensor/0x19418021/diagnostics");
    assert_eq!(heartbeat_topic("p"), "p/heartbeat");
}

#[test]
fn device_record() {
    let d = create_device_info();
    assert_eq!(d.name, "Weather Station");
    assert_eq!(d.identifiers, vec!["weather_station_001".to_string()]);
    assert_eq!(d.manufacturer, "Dream-Link");
    assert_eq!(d.model, "WH1080 USB Weather Station");
}

#[test]
fn status_sensor_in_both_languages() {
    let c = create_status_sensor_config(PREFIX, "en");
    assert_eq!(c.name, "Device Status");
    assert_eq!(c.icon, "mdi:weather-station");
    assert_eq!(c.unique_id, "weather_station_status");
    assert_eq!(c.state_topic, status_state_topic(PREFIX));
    assert_eq!(c.availability.topic, heartbeat_topic(PREFIX));
    assert_eq!(c.availability.payload_available, heartbeat_status());
    assert_eq!(c.availability.payload_not_available, "offline");
    assert_eq!(create_status_sensor_config(PREFIX, "ru").name, "Статус устройства");
}

#[test]
fn heartbeat_marks_the_device_available() {
    assert_eq!(heartbeat_status(), "alive");
    let c = create_status_sensor_config("x", "ru");
    assert_eq!(c.availability.payload_available, heartbeat_status());
    assert_eq!(c.availability.topic, heartbeat_topic("x"));
}

fn sample_reading() -> weather_station::Reading {
    let mut b = [0u8; 32];
    b[1] = 45;
    b[4] = 68;
    b[12] = 10;
    decode_reading(&b, &mut RainGauge::new(), 100)
}

#[test]
fn twelve_sensors_in_order() {
    let t = Translations::new();
    let sensors = create_sensor_definitions(PREFIX, "en", &t, &sample_reading());
    let keys: Vec<&str> = sensors.iter().map(|s| s.key.as_str()).collect();
    assert_eq!(
        keys,
        vec![
            "indoor_humidity",
            "outdoor_humidity",
            "indoor_temperature",
            "outdoor_temperature",
            "outdoor_dew_point",
            "wind_chill_temp",
            "wind_speed",
            "gust_speed",
            "wind_direction",
            "rain_diff",
            "total_rain",
            "abs_pressure",
        ]
    );
    for s in &sensors {
        assert_eq!(s.state_topic, sensor_state_topic(PREFIX, &s.key));
        assert_eq!(s.name, t.get("en", &s.key));
        assert_eq!(s.device.name, "Weather Station");
    }
}

#[test]
fn sensor_fields() {
    let t = Translations::new();
    let sensors = create_sensor_definitions(PREFIX, "ru", &t, &sample_reading());
    let h = &sensors[0];
    assert_eq!(h.name, "Влажность внутри");
    assert_eq!(h.unit_of_measurement.as_deref(), Some("%"));
    assert_eq!(h.device_class.as_deref(), Some("humidity"));
    assert_eq!(h.icon, None);
    assert_eq!(h.unique_id, "indoor_humidity_sensor");
    assert!(matches!(h.value, SensorValue::Percent(45)));
    assert!(matches!(sensors[1].value, SensorValue::Percent(68)));

    let chill = &sensors[5];
    assert_eq!(chill.unique_id, "wind_chill_sensor");
    assert_eq!(chill.unit_of_measurement.as_deref(), Some("°C"));
    assert!(matches!(chill.value, SensorValue::Measured(Quantity::WindChill)));

    let speed = &sensors[6];
    assert_eq!(speed.unit_of_measurement.as_deref(), Some("km/h"));
    assert_eq!(speed.device_class.as_deref(), Some("speed"));

    let dir = &sensors[8];
    assert_eq!(dir.icon.as_deref(), Some("mdi:compass"));
    assert_eq!(dir.unit_of_measurement, None);
    assert_eq!(dir.device_class, None);
    match &dir.value {
        SensorValue::Text(name) => assert_eq!(name, "ЮЗ"),
        other => panic!("unexpected {:?}", other),
    }

    let rain = &sensors[9];
    assert_eq!(rain.unique_id, "rainfall_sensor");
    assert_eq!(rain.device_class.as_deref(), Some("precipitation"));

    let p = &sensors[11];
    assert_eq!(p.unique_id, "pressure_sensor");
    assert_eq!(p.unit_of_measurement.as_deref(), Some("hPa"));
    assert!(matches!(p.value, SensorValue::Measured(Quantity::AbsPressure)));
}

#[test]
fn any_reported_direction_has_a_name() {
    let t = Translations::new();
    let mut b = [0u8; 32];
    for raw in [0u8, 7, 15, 16, 200, 255] {
        b[12] = raw;
        let r = decode_reading(&b, &mut RainGauge::new(), 100);
        for lang in ["en", "ru", "de"] {
            let name = t.get_wind_direction(lang, r.wind_direction_index);
            assert!(!name.starts_with("wind_dir_"), "{} {}", raw, lang);
        }
    }
    b[12] = 200;
    let r = decode_reading(&b, &mut RainGauge::new(), 100);
    assert_eq!(t.get_wind_direction("en", r.wind_direction_index), "NNW");
}
