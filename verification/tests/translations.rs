use weather_station::Translations;

#[test]
fn english_names_are_found() {
    let t = Translations::new();
    assert_eq!(t.get("en", "indoor_humidity"), "Indoor Humidity");
    assert_eq!(t.get("en", "abs_pressure"), "Atmospheric Pressure");
    assert_eq!(t.get("en", "rain_diff"), "Rainfall");
}

#[test]
fn russian_names_are_found() {
    let t = Translations::new();
    assert_eq!(t.get("ru", "indoor_humidity"), "Влажность внутри");
    assert_eq!(t.get("ru", "wind_chill_temp"), "Ощущаемая температура");
    assert_eq!(t.get("ru", "abs_pressure"), "Давление");
}

#[test]
fn unknown_language_falls_back_to_english() {
    let t = Translations::new();
    assert_eq!(t.get("de", "wind_speed"), "Wind Speed");
    assert_eq!(t.get("", "total_rain"), "Total Rainfall");
}

#[test]
fn unknown_key_falls_back_to_itself() {
    let t = Translations::new();
    assert_eq!(t.get("en", "humidity"), "humidity");
    assert_eq!(t.get("ru", "no_such_key"), "no_such_key");
    assert_eq!(t.get("fr", ""), "");
}

#[test]
fn compass_points_in_both_languages() {
    let t = Translations::new();
    assert_eq!(t.get_wind_direction("en", 0), "N");
    assert_eq!(t.get_wind_direction("en", 10), "SW");
    assert_eq!(t.get_wind_direction("en", 15), "NNW");
    assert_eq!(t.get_wind_direction("ru", 3), "ВСВ");
    assert_eq!(t.get_wind_direction("ru", 15), "ССЗ");
    assert_eq!(t.get_wind_direction("xx", 4), "E");
}

#[test]
fn compass_point_out_of_range_names_its_key() {
    let t = Translations::new();
    assert_eq!(t.get_wind_direction("en", 16), "wind_dir_16");
    assert_eq!(t.get_wind_direction("ru", 123), "wind_dir_123");
}

#[test]
fn available_languages_are_english_and_russian() {
    let t = Translations::new();
    let mut langs = t.get_available_languages();
    langs.sort();
    assert_eq!(langs, vec!["en".to_string(), "ru".to_string()]);
}

#[test]
fn every_key_is_named_in_both_languages() {
    let t = Translations::new();
    let keys = [
        "indoor_humidity",
        "outdoor_humidity",
        "indoor_temperature",
        "outdoor_temperature",
        "outdoor_dew_point",
        "wind_chill_temp",
        "wind_speed",
        "gust_speed",
        "wind_direction",
        "rain_diff",
        "total_rain",
        "abs_pressure",
    ];
    for key in keys {
        assert_ne!(t.get("en", key), key);
        assert_ne!(t.get("ru", key), key);
        assert_ne!(t.get("en", key), t.get("ru", key));
    }
    for i in 0..16 {
        let key = format!("wind_dir_{}", i);
        assert_ne!(t.get_wind_direction("en", i), key);
        assert_ne!(t.get_wind_direction("ru", i), key);
    }
}
