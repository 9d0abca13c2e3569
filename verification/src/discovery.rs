//! What the reader announces to Home Assistant over MQTT discovery: the
//! topics, the device record, the status sensor and the twelve measurement
//! sensors.

use vstd::prelude::*;

use crate::station::Reading;
use crate::text::{
    chars_differ_from, differs_from_all, lemma_pairwise_differ, pairwise_differ_from, str_equal,
};
use crate::translations::{
    default_names, english_names, english_pairs, fallback_language, lemma_label_lookup, pair_keys, russian_names,
    translate, wind_key, Translations,
};

verus! {

/// `prefix`, a slash, then `rest`.
pub open spec fn topic(prefix: Seq<char>, rest: Seq<char>) -> Seq<char> {
    prefix + "/"@ + rest
}

fn join_topic(prefix: &str, rest: &str) -> (res: String)
    ensures
        res@ == topic(prefix@, rest@),
{
    let mut res = String::from_str(prefix);
    res.append("/");
    res.append(rest);
    res
}

/// The topic that announces the sensor `key`.
pub fn sensor_config_topic(prefix: &str, key: &str) -> (res: String)
    ensures
        res@ == topic(prefix@, key@ + "/config"@),
{
    let mut rest = String::from_str(key);
    rest.append("/config");
    join_topic(prefix, rest.as_str())
}

/// The topic that carries the state of the sensor `key`.
pub fn sensor_state_topic(prefix: &str, key: &str) -> (res: String)
    ensures
        res@ == topic(prefix@, key@ + "/state"@),
{
    let mut rest = String::from_str(key);
    rest.append("/state");
    join_topic(prefix, rest.as_str())
}

/// Key of the sensor that shows the device status.
pub open spec fn status_key() -> Seq<char> {
    "device_status"@
}

/// The topic that announces the status sensor.
pub fn status_config_topic(prefix: &str) -> (res: String)
    ensures
        res@ == topic(prefix@, status_key() + "/config"@),
{
    sensor_config_topic(prefix, "device_status")
}

/// The topic that carries the device status.
pub fn status_state_topic(prefix: &str) -> (res: String)
    ensures
        res@ == topic(prefix@, status_key() + "/state"@),
{
    sensor_state_topic(prefix, "device_status")
}

/// The topic that carries the diagnostic record of each status report.
pub fn diagnostics_topic(prefix: &str) -> (res: String)
    ensures
        res@ == topic(prefix@, "diagnostics"@),
{
    join_topic(prefix, "diagnostics")
}

/// The topic of the periodic sign of life.
pub fn heartbeat_topic(prefix: &str) -> (res: String)
    ensures
        res@ == topic(prefix@, "heartbeat"@),
{
    join_topic(prefix, "heartbeat")
}

/// The status that every heartbeat carries.
pub open spec fn alive() -> Seq<char> {
    "alive"@
}

/// The status text of a heartbeat.
pub fn heartbeat_status() -> (res: String)
    ensures
        res@ == alive(),
{
    String::from_str("alive")
}

/// The device that all sensors belong to.
#[derive(Clone, Debug)]
pub struct DeviceInfo {
    pub name: String,
    pub identifiers: Vec<String>,
    pub manufacturer: String,
    pub model: String,
}

/// The device record that every sensor announcement carries.
pub open spec fn device_is_station(d: DeviceInfo) -> bool {
    &&& d.name@ == "Weather Station"@
    &&& d.identifiers@.len() == 1
    &&& d.identifiers@[0]@ == "weather_station_001"@
    &&& d.manufacturer@ == "Dream-Link"@
    &&& d.model@ == "WH1080 USB Weather Station"@
}

/// The record of the weather station as a Home Assistant device.
pub fn create_device_info() -> (d: DeviceInfo)
    ensures
        device_is_station(d),
{
    let mut identifiers: Vec<String> = Vec::new();
    identifiers.push(String::from_str("weather_station_001"));
    DeviceInfo {
        name: String::from_str("Weather Station"),
        identifiers,
        manufacturer: String::from_str("Dream-Link"),
        model: String::from_str("WH1080 USB Weather Station"),
    }
}

/// Where Home Assistant learns whether the device is available.
#[derive(Clone, Debug)]
pub struct Availability {
    pub topic: String,
    pub payload_available: String,
    pub payload_not_available: String,
}

/// The announcement of the status sensor.
#[derive(Clone, Debug)]
pub struct StatusSensorConfig {
    pub name: String,
    pub icon: String,
    pub unique_id: String,
    pub state_topic: String,
    pub device: DeviceInfo,
    pub availability: Availability,
}

/// The announcement of the status sensor, named in `language`.
pub fn create_status_sensor_config(prefix: &str, language: &str) -> (c: StatusSensorConfig)
    ensures
        c.name@ == (if language@ == "ru"@ { "Статус устройства"@ } else { "Device Status"@ }),
        c.icon@ == "mdi:weather-station"@,
        c.unique_id@ == "weather_station_status"@,
        c.state_topic@ == topic(prefix@, status_key() + "/state"@),
        device_is_station(c.device),
        c.availability.topic@ == topic(prefix@, "heartbeat"@),
        c.availability.payload_available@ == alive(),
        c.availability.payload_not_available@ == "offline"@,
{
    let name = if str_equal(language, "ru") { "Статус устройства" } else { "Device Status" };
    StatusSensorConfig {
        name: String::from_str(name),
        icon: String::from_str("mdi:weather-station"),
        unique_id: String::from_str("weather_station_status"),
        state_topic: status_state_topic(prefix),
        device: create_device_info(),
        availability: Availability {
            topic: heartbeat_topic(prefix),
            payload_available: heartbeat_status(),
            payload_not_available: String::from_str("offline"),
        },
    }
}

/// The measurement that a numeric sensor shows; its value is computed from the
/// floating-point readings.
#[derive(Clone, Copy, Debug, PartialEq, Eq)]
pub enum Quantity {
    /// Indoor temperature in °C, rounded to hundredths.
    IndoorTemperature,
    /// Outdoor temperature in °C, rounded to hundredths.
    OutdoorTemperature,
    /// Outdoor dew point in °C, rounded to hundredths.
    OutdoorDewPoint,
    /// Wind chill temperature in °C, rounded to hundredths.
    WindChill,
    /// Average wind speed converted from m/s to km/h, rounded to hundredths.
    WindSpeed,
    /// Gust speed converted from m/s to km/h, rounded to hundredths.
    GustSpeed,
    /// Rain since the last reading in mm, rounded to hundredths.
    RainDiff,
    /// Rain total in mm, rounded to hundredths.
    TotalRain,
    /// Absolute pressure in hPa, rounded to hundredths.
    AbsPressure,
}

/// The value that a sensor announcement carries.
#[derive(Clone, Debug)]
pub enum SensorValue {
    /// A relative humidity in percent.
    Percent(u8),
    /// A name, shown as it is.
    Text(String),
    /// A measurement in floating point.
    Measured(Quantity),
}

/// The announcement of one measurement sensor, with its current value.
#[derive(Clone, Debug)]
pub struct SensorDefinition {
    pub key: String,
    pub name: String,
    pub unit_of_measurement: Option<String>,
    pub device_class: Option<String>,
    pub icon: Option<String>,
    pub unique_id: String,
    pub state_topic: String,
    pub device: DeviceInfo,
    pub value: SensorValue,
}

/// The text of an optional string.
pub open spec fn optional_text(o: Option<String>) -> Option<Seq<char>> {
    match o {
        Some(s) => Some(s@),
        None => None,
    }
}

/// The twelve sensors in the order they are announced: key, unit, device
/// class, icon and unique id.
pub open spec fn sensor_rows() -> Seq<
    (Seq<char>, Option<Seq<char>>, Option<Seq<char>>, Option<Seq<char>>, Seq<char>),
> {
    seq![
        ("indoor_humidity"@, Some("%"@), Some("humidity"@), None, "indoor_humidity_sensor"@),
        ("outdoor_humidity"@, Some("%"@), Some("humidity"@), None, "outdoor_humidity_sensor"@),
        ("indoor_temperature"@, Some("°C"@), Some("temperature"@), None, "indoor_temperature_sensor"@),
        ("outdoor_temperature"@, Some("°C"@), Some("temperature"@), None, "outdoor_temperature_sensor"@),
        ("outdoor_dew_point"@, Some("°C"@), Some("temperature"@), None, "outdoor_dew_point_sensor"@),
        ("wind_chill_temp"@, Some("°C"@), Some("temperature"@), None, "wind_chill_sensor"@),
        ("wind_speed"@, Some("km/h"@), Some("speed"@), None, "wind_speed_sensor"@),
        ("gust_speed"@, Some("km/h"@), Some("speed"@), None, "gust_speed_sensor"@),
        ("wind_direction"@, None, None, Some("mdi:compass"@), "wind_direction_sensor"@),
        ("rain_diff"@, Some("mm"@), Some("precipitation"@), None, "rainfall_sensor"@),
        ("total_rain"@, Some("mm"@), Some("precipitation"@), None, "total_rain_sensor"@),
        ("abs_pressure"@, Some("hPa"@), Some("pressure"@), None, "pressure_sensor"@),
    ]
}

/// The value announced by sensor `i` of `sensor_rows()` for `reading`.
pub open spec fn value_matches(
    value: SensorValue,
    i: int,
    reading: Reading,
    table: Map<Seq<char>, Map<Seq<char>, Seq<char>>>,
    language: Seq<char>,
) -> bool {
    if i == 0 {
        value == SensorValue::Percent(reading.indoor_humidity)
    } else if i == 1 {
        value == SensorValue::Percent(reading.outdoor_humidity)
    } else if i == 8 {
        value matches SensorValue::Text(name) && name@ == translate(
            table,
            language,
            wind_key(reading.wind_direction_index as nat),
        )
    } else {
        value == SensorValue::Measured(
            if i == 2 {
                Quantity::IndoorTemperature
            } else if i == 3 {
                Quantity::OutdoorTemperature
            } else if i == 4 {
                Quantity::OutdoorDewPoint
            } else if i == 5 {
                Quantity::WindChill
            } else if i == 6 {
                Quantity::WindSpeed
            } else if i == 7 {
                Quantity::GustSpeed
            } else if i == 9 {
                Quantity::RainDiff
            } else if i == 10 {
                Quantity::TotalRain
            } else {
                Quantity::AbsPressure
            },
        )
    }
}

/// The sensor announcement `d` is the row `row` under `prefix`, named in `language`.
pub open spec fn sensor_matches(
    d: SensorDefinition,
    row: (Seq<char>, Option<Seq<char>>, Option<Seq<char>>, Option<Seq<char>>, Seq<char>),
    prefix: Seq<char>,
    table: Map<Seq<char>, Map<Seq<char>, Seq<char>>>,
    language: Seq<char>,
) -> bool {
    &&& d.key@ == row.0
    &&& d.name@ == translate(table, language, row.0)
    &&& optional_text(d.unit_of_measurement) == row.1
    &&& optional_text(d.device_class) == row.2
    &&& optional_text(d.icon) == row.3
    &&& d.unique_id@ == row.4
    &&& d.state_topic@ == topic(prefix, row.0 + "/state"@)
    &&& device_is_station(d.device)
}

fn optional_string(o: Option<&str>) -> (r: Option<String>)
    ensures
        optional_text(r) == match o {
            Some(s) => Some(s@),
            None => None::<Seq<char>>,
        },
{
    match o {
        Some(s) => Some(String::from_str(s)),
        None => None,
    }
}

fn make_sensor(
    prefix: &str,
    language: &str,
    translations: &Translations,
    key: &str,
    unit: Option<&str>,
    device_class: Option<&str>,
    icon: Option<&str>,
    unique_id: &str,
    value: SensorValue,
) -> (d: SensorDefinition)
    ensures
        sensor_matches(
            d,
            (
                key@,
                match unit {
                    Some(s) => Some(s@),
                    None => None::<Seq<char>>,
                },
                match device_class {
                    Some(s) => Some(s@),
                    None => None::<Seq<char>>,
                },
                match icon {
                    Some(s) => Some(s@),
                    None => None::<Seq<char>>,
                },
                unique_id@,
            ),
            prefix@,
            translations@,
            language@,
        ),
        d.value == value,
{
    SensorDefinition {
        key: String::from_str(key),
        name: translations.get(language, key),
        unit_of_measurement: optional_string(unit),
        device_class: optional_string(device_class),
        icon: optional_string(icon),
        unique_id: String::from_str(unique_id),
        state_topic: sensor_state_topic(prefix, key),
        device: create_device_info(),
        value,
    }
}

/// The announcements of the twelve measurement sensors for `reading`, named
/// in `language`, with topics under `prefix`.
pub fn create_sensor_definitions(
    prefix: &str,
    language: &str,
    translations: &Translations,
    reading: &Reading,
) -> (sensors: Vec<SensorDefinition>)
    ensures
        sensors@.len() == sensor_rows().len(),
        forall|i: int|
            0 <= i < sensors@.len() ==> sensor_matches(
                #[trigger] sensors@[i],
                sensor_rows()[i],
                prefix@,
                translations@,
                language@,
            ) && value_matches(sensors@[i].value, i, *reading, translations@, language@),
{
    let mut sensors: Vec<SensorDefinition> = Vec::new();
    sensors.push(
        make_sensor(
            prefix,
            language,
            translations,
            "indoor_humidity",
            Some("%"),
            Some("humidity"),
            None,
            "indoor_humidity_sensor",
            SensorValue::Percent(reading.indoor_humidity),
        ),
    );
    sensors.push(
        make_sensor(
            prefix,
            language,
            translations,
            "outdoor_humidity",
            Some("%"),
            Some("humidity"),
            None,
            "outdoor_humidity_sensor",
            SensorValue::Percent(reading.outdoor_humidity),
        ),
    );
    sensors.push(
        make_sensor(
            prefix,
            language,
            translations,
            "indoor_temperature",
            Some("°C"),
            Some("temperature"),
            None,
            "indoor_temperature_sensor",
            SensorValue::Measured(Quantity::IndoorTemperature),
        ),
    );
    sensors.push(
        make_sensor(
            prefix,
            language,
            translations,
            "outdoor_temperature",
            Some("°C"),
            Some("temperature"),
            None,
            "outdoor_temperature_sensor",
            SensorValue::Measured(Quantity::OutdoorTemperature),
        ),
    );
    sensors.push(
        make_sensor(
            prefix,
            language,
            translations,
            "outdoor_dew_point",
            Some("°C"),
            Some("temperature"),
            None,
            "outdoor_dew_point_sensor",
            SensorValue::Measured(Quantity::OutdoorDewPoint),
        ),
    );
    sensors.push(
        make_sensor(
            prefix,
            language,
            translations,
            "wind_chill_temp",
            Some("°C"),
            Some("temperature"),
            None,
            "wind_chill_sensor",
            SensorValue::Measured(Quantity::WindChill),
        ),
    );
    sensors.push(
        make_sensor(
            prefix,
            language,
            translations,
            "wind_speed",
            Some("km/h"),
            Some("speed"),
            None,
            "wind_speed_sensor",
            SensorValue::Measured(Quantity::WindSpeed),
        ),
    );
    sensors.push(
        make_sensor(
            prefix,
            language,
            translations,
            "gust_speed",
            Some("km/h"),
            Some("speed"),
            None,
            "gust_speed_sensor",
            SensorValue::Measured(Quantity::GustSpeed),
        ),
    );
    sensors.push(
        make_sensor(
            prefix,
            language,
            translations,
            "wind_direction",
            None,
            None,
            Some("mdi:compass"),
            "wind_direction_sensor",
            SensorValue::Text(translations.get_wind_direction(language, reading.wind_direction_index)),
        ),
    );
    sensors.push(
        make_sensor(
            prefix,
            language,
            translations,
            "rain_diff",
            Some("mm"),
            Some("precipitation"),
            None,
            "rainfall_sensor",
            SensorValue::Measured(Quantity::RainDiff),
        ),
    );
    sensors.push(
        make_sensor(
            prefix,
            language,
            translations,
            "total_rain",
            Some("mm"),
            Some("precipitation"),
            None,
            "total_rain_sensor",
            SensorValue::Measured(Quantity::TotalRain),
        ),
    );
    sensors.push(
        make_sensor(
            prefix,
            language,
            translations,
            "abs_pressure",
            Some("hPa"),
            Some("pressure"),
            None,
            "pressure_sensor",
            SensorValue::Measured(Quantity::AbsPressure),
        ),
    );
    assert forall|i: int| 0 <= i < sensors@.len() implies sensor_matches(
        #[trigger] sensors@[i],
        sensor_rows()[i],
        prefix@,
        translations@,
        language@,
    ) && value_matches(sensors@[i].value, i, *reading, translations@, language@) by {
        assert(0 <= i < 12);
    }
    sensors
}

/// The keys of the twelve sensors, in order.
spec fn sensor_keys() -> Seq<Seq<char>> {
    sensor_rows().map_values(
        |r: (Seq<char>, Option<Seq<char>>, Option<Seq<char>>, Option<Seq<char>>, Seq<char>)| r.0,
    )
}

/// The unique ids of the twelve sensors, in order.
spec fn sensor_ids() -> Seq<Seq<char>> {
    sensor_rows().map_values(
        |r: (Seq<char>, Option<Seq<char>>, Option<Seq<char>>, Option<Seq<char>>, Seq<char>)| r.4,
    )
}

/// No two of the twelve sensors share a key or a unique id.
proof fn lemma_sensor_rows_distinct(a: int, b: int)
    requires
        0 <= a < sensor_rows().len(),
        0 <= b < sensor_rows().len(),
        a != b,
    ensures
        sensor_rows()[a].0 != sensor_rows()[b].0,
        sensor_rows()[a].4 != sensor_rows()[b].4,
{
    assert(pairwise_differ_from(sensor_keys(), 0) && pairwise_differ_from(sensor_ids(), 0)) by {
        reveal_strlit("indoor_humidity");
        reveal_strlit("outdoor_humidity");
        reveal_strlit("indoor_temperature");
        reveal_strlit("outdoor_temperature");
        reveal_strlit("outdoor_dew_point");
        reveal_strlit("wind_chill_temp");
        reveal_strlit("wind_speed");
        reveal_strlit("gust_speed");
        reveal_strlit("wind_direction");
        reveal_strlit("rain_diff");
        reveal_strlit("total_rain");
        reveal_strlit("abs_pressure");
        reveal_strlit("indoor_humidity_sensor");
        reveal_strlit("outdoor_humidity_sensor");
        reveal_strlit("indoor_temperature_sensor");
        reveal_strlit("outdoor_temperature_sensor");
        reveal_strlit("outdoor_dew_point_sensor");
        reveal_strlit("wind_chill_sensor");
        reveal_strlit("wind_speed_sensor");
        reveal_strlit("gust_speed_sensor");
        reveal_strlit("wind_direction_sensor");
        reveal_strlit("rainfall_sensor");
        reveal_strlit("total_rain_sensor");
        reveal_strlit("pressure_sensor");
        reveal_with_fuel(pairwise_differ_from, 13);
        reveal_with_fuel(differs_from_all, 13);
        reveal_with_fuel(chars_differ_from, 7);
    }
    lemma_pairwise_differ(sensor_keys(), 0);
    lemma_pairwise_differ(sensor_ids(), 0);
    if a < b {
        assert(sensor_keys()[a] != sensor_keys()[b]);
        assert(sensor_ids()[a] != sensor_ids()[b]);
    } else {
        assert(sensor_keys()[b] != sensor_keys()[a]);
        assert(sensor_ids()[b] != sensor_ids()[a]);
    }
}

/// Each announced sensor shows the measurement that its key names: the
/// humidity sensors their humidity, the wind-direction sensor the name of the
/// reported compass point, and each other sensor its own quantity, in the
/// unit and under the device class of that measurement.
pub proof fn each_sensor_shows_its_key(
    d: SensorDefinition,
    i: int,
    reading: Reading,
    prefix: Seq<char>,
    table: Map<Seq<char>, Map<Seq<char>, Seq<char>>>,
    language: Seq<char>,
)
    requires
        0 <= i < sensor_rows().len(),
        sensor_matches(d, sensor_rows()[i], prefix, table, language),
        value_matches(d.value, i, reading, table, language),
    ensures
        d.key@ == "indoor_humidity"@ ==> d.value == SensorValue::Percent(reading.indoor_humidity),
        d.key@ == "outdoor_humidity"@ ==> d.value == SensorValue::Percent(reading.outdoor_humidity),
        d.key@ == "indoor_temperature"@ ==> d.value == SensorValue::Measured(
            Quantity::IndoorTemperature,
        ),
        d.key@ == "outdoor_temperature"@ ==> d.value == SensorValue::Measured(
            Quantity::OutdoorTemperature,
        ),
        d.key@ == "outdoor_dew_point"@ ==> d.value == SensorValue::Measured(Quantity::OutdoorDewPoint),
        d.key@ == "wind_chill_temp"@ ==> d.value == SensorValue::Measured(Quantity::WindChill),
        d.key@ == "wind_speed"@ ==> d.value == SensorValue::Measured(Quantity::WindSpeed),
        d.key@ == "gust_speed"@ ==> d.value == SensorValue::Measured(Quantity::GustSpeed),
        d.key@ == "wind_direction"@ ==> (d.value matches SensorValue::Text(name) && name@
            == translate(table, language, wind_key(reading.wind_direction_index as nat))),
        d.key@ == "rain_diff"@ ==> d.value == SensorValue::Measured(Quantity::RainDiff),
        d.key@ == "total_rain"@ ==> d.value == SensorValue::Measured(Quantity::TotalRain),
        d.key@ == "abs_pressure"@ ==> d.value == SensorValue::Measured(Quantity::AbsPressure),
        d.key@ == "indoor_humidity"@ ==> {
            &&& optional_text(d.unit_of_measurement) == Some("%"@)
            &&& optional_text(d.device_class) == Some("humidity"@)
            &&& optional_text(d.icon) == None::<Seq<char>>
        },
        d.key@ == "outdoor_humidity"@ ==> {
            &&& optional_text(d.unit_of_measurement) == Some("%"@)
            &&& optional_text(d.device_class) == Some("humidity"@)
            &&& optional_text(d.icon) == None::<Seq<char>>
        },
        d.key@ == "indoor_temperature"@ ==> {
            &&& optional_text(d.unit_of_measurement) == Some("°C"@)
            &&& optional_text(d.device_class) == Some("temperature"@)
            &&& optional_text(d.icon) == None::<Seq<char>>
        },
        d.key@ == "outdoor_temperature"@ ==> {
            &&& optional_text(d.unit_of_measurement) == Some("°C"@)
            &&& optional_text(d.device_class) == Some("temperature"@)
            &&& optional_text(d.icon) == None::<Seq<char>>
        },
        d.key@ == "outdoor_dew_point"@ ==> {
            &&& optional_text(d.unit_of_measurement) == Some("°C"@)
            &&& optional_text(d.device_class) == Some("temperature"@)
            &&& optional_text(d.icon) == None::<Seq<char>>
        },
        d.key@ == "wind_chill_temp"@ ==> {
            &&& optional_text(d.unit_of_measurement) == Some("°C"@)
            &&& optional_text(d.device_class) == Some("temperature"@)
            &&& optional_text(d.icon) == None::<Seq<char>>
        },
        d.key@ == "wind_speed"@ ==> {
            &&& optional_text(d.unit_of_measurement) == Some("km/h"@)
            &&& optional_text(d.device_class) == Some("speed"@)
            &&& optional_text(d.icon) == None::<Seq<char>>
        },
        d.key@ == "gust_speed"@ ==> {
            &&& optional_text(d.unit_of_measurement) == Some("km/h"@)
            &&& optional_text(d.device_class) == Some("speed"@)
            &&& optional_text(d.icon) == None::<Seq<char>>
        },
        d.key@ == "wind_direction"@ ==> {
            &&& optional_text(d.unit_of_measurement) == None::<Seq<char>>
            &&& optional_text(d.device_class) == None::<Seq<char>>
            &&& optional_text(d.icon) == Some("mdi:compass"@)
        },
        d.key@ == "rain_diff"@ ==> {
            &&& optional_text(d.unit_of_measurement) == Some("mm"@)
            &&& optional_text(d.device_class) == Some("precipitation"@)
            &&& optional_text(d.icon) == None::<Seq<char>>
        },
        d.key@ == "total_rain"@ ==> {
            &&& optional_text(d.unit_of_measurement) == Some("mm"@)
            &&& optional_text(d.device_class) == Some("precipitation"@)
            &&& optional_text(d.icon) == None::<Seq<char>>
        },
        d.key@ == "abs_pressure"@ ==> {
            &&& optional_text(d.unit_of_measurement) == Some("hPa"@)
            &&& optional_text(d.device_class) == Some("pressure"@)
            &&& optional_text(d.icon) == None::<Seq<char>>
        },
{
    reveal_strlit("indoor_humidity");
    reveal_strlit("outdoor_humidity");
    reveal_strlit("indoor_temperature");
    reveal_strlit("outdoor_temperature");
    reveal_strlit("outdoor_dew_point");
    reveal_strlit("wind_chill_temp");
    reveal_strlit("wind_speed");
    reveal_strlit("gust_speed");
    reveal_strlit("wind_direction");
    reveal_strlit("rain_diff");
    reveal_strlit("total_rain");
    reveal_strlit("abs_pressure");
    if i != 0 {
        lemma_sensor_rows_distinct(i, 0);
    }
    if i != 1 {
        lemma_sensor_rows_distinct(i, 1);
    }
    if i != 2 {
        lemma_sensor_rows_distinct(i, 2);
    }
    if i != 3 {
        lemma_sensor_rows_distinct(i, 3);
    }
    if i != 4 {
        lemma_sensor_rows_distinct(i, 4);
    }
    if i != 5 {
        lemma_sensor_rows_distinct(i, 5);
    }
    if i != 6 {
        lemma_sensor_rows_distinct(i, 6);
    }
    if i != 7 {
        lemma_sensor_rows_distinct(i, 7);
    }
    if i != 8 {
        lemma_sensor_rows_distinct(i, 8);
    }
    if i != 9 {
        lemma_sensor_rows_distinct(i, 9);
    }
    if i != 10 {
        lemma_sensor_rows_distinct(i, 10);
    }
    if i != 11 {
        lemma_sensor_rows_distinct(i, 11);
    }
}

/// Two different sensors of the announcement carry different keys and unique
/// ids, and never the same measured quantity.
pub proof fn sensors_show_distinct_measurements(
    d1: SensorDefinition,
    i: int,
    d2: SensorDefinition,
    j: int,
    reading: Reading,
    prefix: Seq<char>,
    table: Map<Seq<char>, Map<Seq<char>, Seq<char>>>,
    language: Seq<char>,
)
    requires
        0 <= i < sensor_rows().len(),
        0 <= j < sensor_rows().len(),
        i != j,
        sensor_matches(d1, sensor_rows()[i], prefix, table, language),
        value_matches(d1.value, i, reading, table, language),
        sensor_matches(d2, sensor_rows()[j], prefix, table, language),
        value_matches(d2.value, j, reading, table, language),
    ensures
        d1.key@ != d2.key@,
        d1.unique_id@ != d2.unique_id@,
        d1.value is Measured ==> d1.value != d2.value,
{
    lemma_sensor_rows_distinct(i, j);
}

/// The twelve sensors are named in Russian for Russian and in English for
/// every other language, as follows.
pub proof fn sensors_named_in_their_language(i: int, language: Seq<char>)
    requires
        0 <= i < sensor_rows().len(),
    ensures
        translate(default_names(), language, sensor_rows()[i].0) == if language == "ru"@ {
            seq![
                "Влажность внутри"@, "Влажность снаружи"@, "Температура внутри"@,
                "Температура снаружи"@, "Точка росы снаружи"@,
                "Ощущаемая температура"@, "Скорость ветра"@, "Скорость порывов ветра"@,
                "Направление ветра"@, "Количество осадков"@,
                "Общее количество осадков"@, "Давление"@,
            ][i]
        } else {
            seq![
                "Indoor Humidity"@, "Outdoor Humidity"@, "Indoor Temperature"@,
                "Outdoor Temperature"@, "Outdoor Dew Point"@,
                "Wind Chill Temperature"@, "Wind Speed"@, "Gust Speed"@,
                "Wind Direction"@, "Rainfall"@, "Total Rainfall"@,
                "Atmospheric Pressure"@,
            ][i]
        },
{
    reveal_strlit("en");
    reveal_strlit("ru");
    assert("en"@[0] != "ru"@[0]);
    assert(default_names()[fallback_language()] == english_names());
    assert(default_names()["ru"@] == russian_names());
    lemma_label_lookup(i);
    assert(sensor_keys() =~= pair_keys(english_pairs()).subrange(0, 12));
    assert(sensor_keys()[i] == english_pairs()[i].0);
}

} // verus!
