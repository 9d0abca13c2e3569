use weather_station::{format_device_status, get_status_details, status_for_error, DeviceStatus, StationError};

#[test]
fn missing_device_errors() {
    assert!(matches!(status_for_error("Weather station device not found (vendor: 0x1941, product: 0x8021)"), DeviceStatus::UsbNotFound));
    assert!(matches!(status_for_error("Device not found"), DeviceStatus::UsbNotFound));
    // "not found" wins over "permission"
    assert!(matches!(status_for_error("permission: not found"), DeviceStatus::UsbNotFound));
}

#[test]
fn denied_access_errors() {
    assert!(matches!(status_for_error("Access denied (insufficient permissions)"), DeviceStatus::PermissionDenied));
    assert!(matches!(status_for_error("no permission to read"), DeviceStatus::PermissionDenied));
}

#[test]
fn read_errors_keep_their_text() {
    match status_for_error("Bad data returned, first byte: 0x12") {
        DeviceStatus::ReadError(m) => assert_eq!(m, "Bad data returned, first byte: 0x12"),
        other => panic!("unexpected {:?}", other),
    }
    match status_for_error("failed to read") {
        DeviceStatus::ReadError(m) => assert_eq!(m, "failed to read"),
        other => panic!("unexpected {:?}", other),
    }
}

#[test]
fn other_errors_are_general() {
    match status_for_error("Expected 32 bytes, got 7") {
        DeviceStatus::Error(m) => assert_eq!(m, "Expected 32 bytes, got 7"),
        other => panic!("unexpected {:?}", other),
    }
    // the search is case-sensitive
    match status_for_error("NOT FOUND, Read") {
        DeviceStatus::Error(m) => assert_eq!(m, "NOT FOUND, Read"),
        other => panic!("unexpected {:?}", other),
    }
    assert!(matches!(status_for_error(""), DeviceStatus::Error(_)));
}

#[test]
fn station_errors_are_reported_by_kind() {
    let missing = StationError::NotFound { vendor_id: 0x1941, product_id: 0x8021 }.message();
    assert!(matches!(status_for_error(&missing), DeviceStatus::UsbNotFound));
    let bad = StationError::BadData { first_byte: 0xaa }.message();
    assert!(matches!(status_for_error(&bad), DeviceStatus::ReadError(_)));
    let short = StationError::ShortRead { bytes_read: 3 }.message();
    assert!(matches!(status_for_error(&short), DeviceStatus::Error(_)));
}

#[test]
fn status_texts_in_english() {
    assert_eq!(format_device_status(&DeviceStatus::Online, "en"), "Online");
    assert_eq!(format_device_status(&DeviceStatus::Offline, "en"), "Offline");
    assert_eq!(format_device_status(&DeviceStatus::UsbNotFound, "en"), "USB device not found");
    assert_eq!(format_device_status(&DeviceStatus::PermissionDenied, "de"), "USB permission denied");
    assert_eq!(format_device_status(&DeviceStatus::ReadError("x".to_string()), "en"), "Read error: x");
    assert_eq!(format_device_status(&DeviceStatus::Error("boom".to_string()), "en"), "Error: boom");
}

#[test]
fn status_texts_in_russian() {
    assert_eq!(format_device_status(&DeviceStatus::Online, "ru"), "В сети");
    assert_eq!(format_device_status(&DeviceStatus::Offline, "ru"), "Отключено");
    assert_eq!(format_device_status(&DeviceStatus::UsbNotFound, "ru"), "USB устройство не найдено");
    assert_eq!(format_device_status(&DeviceStatus::PermissionDenied, "ru"), "Нет доступа к USB");
    assert_eq!(format_device_status(&DeviceStatus::ReadError("x".to_string()), "ru"), "Ошибка чтения: x");
    assert_eq!(format_device_status(&DeviceStatus::Error("boom".to_string()), "ru"), "Ошибка: boom");
}

#[test]
fn details_of_each_status() {
    let d = get_status_details(&DeviceStatus::Online);
    assert_eq!((d.code.as_str(), d.severity.as_str(), d.description.as_str()), ("online", "info", "Device is functioning normally"));
    assert!(d.error_message.is_none() && d.troubleshooting.is_none());

    let d = get_status_details(&DeviceStatus::Offline);
    assert_eq!((d.code.as_str(), d.severity.as_str()), ("offline", "warning"));
    assert_eq!(d.description, "Device is not responding");

    let d = get_status_details(&DeviceStatus::UsbNotFound);
    assert_eq!(d.code, "usb_not_found");
    assert_eq!(d.description, "USB weather station device not detected");
    assert_eq!(
        d.troubleshooting.unwrap(),
        vec!["Check USB connection", "Verify device vendor/product ID (1941:8021)", "Try different USB port"]
    );

    let d = get_status_details(&DeviceStatus::PermissionDenied);
    assert_eq!(d.code, "permission_denied");
    assert_eq!(d.troubleshooting.unwrap()[1], "Add user to plugdev group");

    let d = get_status_details(&DeviceStatus::ReadError("oops".to_string()));
    assert_eq!(d.code, "read_error");
    assert_eq!(d.severity, "error");
    assert_eq!(d.error_message.as_deref(), Some("oops"));
    assert_eq!(d.troubleshooting.unwrap()[2], "Try reconnecting the device");

    let d = get_status_details(&DeviceStatus::Error("bad".to_string()));
    assert_eq!(d.code, "general_error");
    assert_eq!(d.description, "General device error");
    assert_eq!(d.error_message.as_deref(), Some("bad"));
    assert!(d.troubleshooting.is_none());
}
