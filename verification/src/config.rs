//! The reader's settings: the station's USB ids and reading period, the MQTT
//! broker, and the display language.

use vstd::prelude::*;

verus! {

/// How to reach the MQTT broker and where to publish.
#[derive(Clone, Debug)]
pub struct MqttConfig {
    pub broker: String,
    pub port: u16,
    pub username: String,
    pub password: String,
    pub topic_prefix: String,
    pub client_id: String,
}

impl Default for MqttConfig {
    /// The settings written into a fresh configuration file.
    fn default() -> (c: Self)
        ensures
            c.broker@ == "192.168.8.111"@,
            c.port == 1883,
            c.username@ == "homeassistant"@,
            c.password@ == "3333"@,
            c.topic_prefix@ == "homeassistant/sensor/0x19418021"@,
            c.client_id@ == "weather_station_rust"@,
    {
        MqttConfig {
            broker: String::from_str("192.168.8.111"),
            port: 1883,
            username: String::from_str("homeassistant"),
            password: String::from_str("3333"),
            topic_prefix: String::from_str("homeassistant/sensor/0x19418021"),
            client_id: String::from_str("weather_station_rust"),
        }
    }
}

/// The weather station and how it is read.
#[derive(Clone, Debug)]
pub struct WeatherStationConfig {
    pub vendor_id: u16,
    pub product_id: u16,
    /// Minutes between readings.
    pub period_minutes: u64,
    /// The largest rise of the rain total between two readings that is
    /// believed, in tenths of a millimetre; larger rises are discarded.
    pub max_rain_jump_tenths: i64,
}

/// All settings of the reader.
#[derive(Clone, Debug)]
pub struct AppConfig {
    pub weather_station: WeatherStationConfig,
    pub mqtt: MqttConfig,
    /// Language code of the displayed names: "en" or "ru".
    pub language: String,
}

impl Default for AppConfig {
    /// The settings written into a fresh configuration file: the WH1080's USB
    /// ids, one reading a minute, a 10 mm limit on rain jumps, the default
    /// broker and English names.
    fn default() -> (c: Self)
        ensures
            c.weather_station.vendor_id == 0x1941,
            c.weather_station.product_id == 0x8021,
            c.weather_station.period_minutes == 1,
            c.weather_station.max_rain_jump_tenths == 100,
            c.mqtt.broker@ == "192.168.8.111"@,
            c.mqtt.port == 1883,
            c.mqtt.username@ == "homeassistant"@,
            c.mqtt.password@ == "3333"@,
            c.mqtt.topic_prefix@ == "homeassistant/sensor/0x19418021"@,
            c.mqtt.client_id@ == "weather_station_rust"@,
            c.language@ == "en"@,
    {
        AppConfig {
            weather_station: WeatherStationConfig {
                vendor_id: 0x1941,
                product_id: 0x8021,
                period_minutes: 1,
                max_rain_jump_tenths: 100,
            },
            mqtt: MqttConfig::default(),
            language: String::from_str("en"),
        }
    }
}

} // verus!
