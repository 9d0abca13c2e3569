use weather_station::{
    block_request, check_block_length, current_position, decode_reading, find_weather_device,
    DeviceSearch, RainGauge, RainStep, StationError, Temperature,
};

#[test]
fn request_for_fixed_block() {
    assert_eq!(block_request(0), [0xA1, 0, 0, 32, 0xA1, 0, 0, 32]);
}

#[test]
fn request_splits_offset_into_high_and_low_byte() {
    assert_eq!(block_request(0x1234), [0xA1, 0x12, 0x34, 32, 0xA1, 0x12, 0x34, 32]);
    assert_eq!(block_request(0xFFE0), [0xA1, 0xFF, 0xE0, 32, 0xA1, 0xFF, 0xE0, 32]);
}

#[test]
fn only_full_blocks_are_accepted() {
    assert!(check_block_length(32).is_ok());
    match check_block_length(31) {
        Err(StationError::ShortRead { bytes_read }) => assert_eq!(bytes_read, 31),
        other => panic!("unexpected {:?}", other),
    }
    assert!(check_block_length(0).is_err());
    assert!(check_block_length(64).is_err());
}

#[test]
fn fixed_block_points_at_current_record() {
    let mut fixed = [0u8; 32];
    fixed[0] = 0x55;
    fixed[30] = 0x20;
    fixed[31] = 0x01;
    assert_eq!(current_position(&fixed).unwrap(), 0x0120);
}

#[test]
fn fixed_block_without_marker_is_bad_data() {
    let mut fixed = [0u8; 32];
    fixed[0] = 0x12;
    match current_position(&fixed) {
        Err(StationError::BadData { first_byte }) => assert_eq!(first_byte, 0x12),
        other => panic!("unexpected {:?}", other),
    }
}

#[test]
fn error_messages() {
    let e = StationError::NotFound { vendor_id: 0x1941, product_id: 0x8021 };
    assert_eq!(e.message(), "Weather station device not found (vendor: 0x1941, product: 0x8021)");
    assert_eq!(StationError::ShortRead { bytes_read: 7 }.message(), "Expected 32 bytes, got 7");
    assert_eq!(StationError::ShortRead { bytes_read: 0 }.message(), "Expected 32 bytes, got 0");
    assert_eq!(StationError::BadData { first_byte: 0xab }.message(), "Bad data returned, first byte: 0xab");
    assert_eq!(StationError::BadData { first_byte: 0 }.message(), "Bad data returned, first byte: 0x0");
    assert_eq!(
        StationError::NotFound { vendor_id: 0, product_id: 0xffff }.message(),
        "Weather station device not found (vendor: 0x0, product: 0xffff)"
    );
}

fn sample_block() -> [u8; 32] {
    let mut b = [0u8; 32];
    b[1] = 45; // indoor humidity
    b[2] = 0xDF; // 223 -> 22.3
    b[3] = 0x00;
    b[4] = 68; // outdoor humidity
    b[5] = 0x9D; // 157 -> -15.7 with the sign bit
    b[6] = 0x80;
    b[7] = 0x94; // 10132 -> 1013.2 hPa
    b[8] = 0x27;
    b[9] = 5; // wind
    b[10] = 10; // gust
    b[11] = 0x21; // gust high nibble 2, wind low nibble 1
    b[12] = 10; // south-west
    b[13] = 41; // 41 counts of rain
    b[14] = 0;
    b
}

#[test]
fn decodes_a_record() {
    let mut gauge = RainGauge::new();
    let r = decode_reading(&sample_block(), &mut gauge, 100);
    assert_eq!(r.indoor_humidity, 45);
    assert_eq!(r.outdoor_humidity, 68);
    assert_eq!(r.indoor_temperature, Temperature { tenths: 223, below_zero: false });
    assert_eq!(r.outdoor_temperature, Temperature { tenths: 157, below_zero: true });
    assert_eq!(r.abs_pressure_tenths, 10132);
    assert_eq!(r.wind_raw, 5 + 1 * 256);
    assert_eq!(r.gust_raw, 10 + 2 * 256);
    assert_eq!(r.wind_direction_index, 10);
    assert_eq!(r.rain, RainStep { total_raw: 41, reference_raw: 41, spike: false });
}

#[test]
fn high_temperature_byte_carries_seven_bits() {
    let mut b = sample_block();
    b[2] = 0x01;
    b[3] = 0x7F;
    let r = decode_reading(&b, &mut RainGauge::new(), 100);
    assert_eq!(r.indoor_temperature, Temperature { tenths: 0x7F01, below_zero: false });
    b[3] = 0xFF;
    let r = decode_reading(&b, &mut RainGauge::new(), 100);
    assert_eq!(r.indoor_temperature, Temperature { tenths: 0x7F01, below_zero: true });
}

#[test]
fn wind_takes_low_nibble_as_high_bits() {
    let mut b = sample_block();
    b[9] = 250;
    b[11] = 0x0F;
    let r = decode_reading(&b, &mut RainGauge::new(), 100);
    assert_eq!(r.wind_raw, 250 + 15 * 256);
    assert_eq!(r.gust_raw, 10);
    b[9] = 5;
    b[11] = 0;
    let r = decode_reading(&b, &mut RainGauge::new(), 100);
    assert_eq!(r.wind_raw, 5);
}

#[test]
fn direction_is_clamped_to_the_last_compass_point() {
    let mut b = sample_block();
    b[12] = 200;
    let r = decode_reading(&b, &mut RainGauge::new(), 100);
    assert_eq!(r.wind_direction_index, 15);
    b[12] = 15;
    let r = decode_reading(&b, &mut RainGauge::new(), 100);
    assert_eq!(r.wind_direction_index, 15);
}

#[test]
fn rain_gauge_follows_small_rises() {
    let mut gauge = RainGauge::new();
    assert_eq!(gauge.record(100, 100), RainStep { total_raw: 100, reference_raw: 100, spike: false });
    assert_eq!(gauge.record(110, 100), RainStep { total_raw: 110, reference_raw: 100, spike: false });
    // 33 counts are 9.9 mm, within a 10.0 mm jump
    assert_eq!(gauge.record(143, 100), RainStep { total_raw: 143, reference_raw: 110, spike: false });
}

#[test]
fn rain_gauge_discards_spikes() {
    let mut gauge = RainGauge::new();
    gauge.record(100, 100);
    // 34 counts are 10.2 mm, more than a 10.0 mm jump
    assert_eq!(gauge.record(134, 100), RainStep { total_raw: 100, reference_raw: 100, spike: true });
    assert_eq!(gauge.record(101, 100), RainStep { total_raw: 101, reference_raw: 100, spike: false });
}

#[test]
fn rain_gauge_accepts_a_falling_total() {
    let mut gauge = RainGauge::new();
    gauge.record(500, 100);
    assert_eq!(gauge.record(3, 100), RainStep { total_raw: 3, reference_raw: 500, spike: false });
}

#[test]
fn rain_gauge_waits_for_a_non_zero_total() {
    let mut gauge = RainGauge::new();
    assert_eq!(gauge.record(0, 100), RainStep { total_raw: 0, reference_raw: 0, spike: false });
    assert_eq!(gauge.record(1000, 100), RainStep { total_raw: 1000, reference_raw: 1000, spike: false });
}

#[test]
fn device_search_stops_at_first_match() {
    let ids = vec![Some((1, 2)), Some((0x1941, 0x8021)), None];
    assert_eq!(find_weather_device(&ids, 0x1941, 0x8021), DeviceSearch::Found(1));
}

#[test]
fn device_search_stops_at_unreadable_descriptor() {
    let ids = vec![Some((1, 2)), None, Some((0x1941, 0x8021))];
    assert_eq!(find_weather_device(&ids, 0x1941, 0x8021), DeviceSearch::DescriptorUnreadable(1));
}

#[test]
fn device_search_can_miss() {
    let ids = vec![Some((1, 2)), Some((0x1941, 0x8020))];
    assert_eq!(find_weather_device(&ids, 0x1941, 0x8021), DeviceSearch::Missing);
    assert_eq!(find_weather_device(&vec![], 0x1941, 0x8021), DeviceSearch::Missing);
}
