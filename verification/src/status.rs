//! The device status that the reader reports to Home Assistant: how an error
//! is classified, how a status reads in each language, and the diagnostic
//! details and sensor descriptions that go with it.

use vstd::prelude::*;

use crate::station::{error_text, StationError};
use crate::text::{
    contains, decimal_text, hex_text, lemma_absent_before_digits, lemma_decimal_digits,
    differs_from, fits_nowhere_from, lemma_hex_digits, occurs_in, str_equal,
};

verus! {

/// The state of the weather station as reported on the status sensor.
#[derive(Clone, Debug)]
pub enum DeviceStatus {
    Online,
    Offline,
    Error(String),
    UsbNotFound,
    PermissionDenied,
    ReadError(String),
}

/// The error text says the device was not found.
pub open spec fn names_missing_device(message: Seq<char>) -> bool {
    occurs_in(message, "not found"@) || occurs_in(message, "Device not found"@)
}

/// The error text says access to the device was refused.
pub open spec fn names_denied_access(message: Seq<char>) -> bool {
    occurs_in(message, "permission"@) || occurs_in(message, "Access denied"@)
}

/// The error text says reading from the device failed.
pub open spec fn names_read_failure(message: Seq<char>) -> bool {
    occurs_in(message, "read"@) || occurs_in(message, "Bad data"@)
}

/// The status that an error with text `message` is reported under: the first
/// of missing device, refused access and failed read that the text names, and
/// a general error otherwise.
pub fn status_for_error(message: &str) -> (status: DeviceStatus)
    ensures
        names_missing_device(message@) ==> status is UsbNotFound,
        !names_missing_device(message@) && names_denied_access(message@) ==> status is PermissionDenied,
        !names_missing_device(message@) && !names_denied_access(message@) && names_read_failure(message@)
            ==> (status matches DeviceStatus::ReadError(m) && m@ == message@),
        !names_missing_device(message@) && !names_denied_access(message@) && !names_read_failure(message@)
            ==> (status matches DeviceStatus::Error(m) && m@ == message@),
{
    if contains(message, "not found") || contains(message, "Device not found") {
        DeviceStatus::UsbNotFound
    } else if contains(message, "permission") || contains(message, "Access denied") {
        DeviceStatus::PermissionDenied
    } else if contains(message, "read") || contains(message, "Bad data") {
        DeviceStatus::ReadError(String::from_str(message))
    } else {
        DeviceStatus::Error(String::from_str(message))
    }
}

/// The language code whose texts are Russian; every other code reads English.
pub open spec fn russian() -> Seq<char> {
    "ru"@
}

/// The text of `status` on the status sensor.
pub open spec fn status_text(status: DeviceStatus, language: Seq<char>) -> Seq<char> {
    let ru = language == russian();
    match status {
        DeviceStatus::Online => if ru { "В сети"@ } else { "Online"@ },
        DeviceStatus::Offline => if ru { "Отключено"@ } else { "Offline"@ },
        DeviceStatus::UsbNotFound => if ru { "USB устройство не найдено"@ } else { "USB device not found"@ },
        DeviceStatus::PermissionDenied => if ru { "Нет доступа к USB"@ } else { "USB permission denied"@ },
        DeviceStatus::ReadError(m) => if ru { "Ошибка чтения: "@ + m@ } else { "Read error: "@ + m@ },
        DeviceStatus::Error(m) => if ru { "Ошибка: "@ + m@ } else { "Error: "@ + m@ },
    }
}

/// The status sensor shows the text of a failure in full, at the end of the
/// status text, in every language.
pub proof fn failure_text_shown_in_full(m: String, language: Seq<char>)
    ensures
        ({
            let t = status_text(DeviceStatus::ReadError(m), language);
            m@.len() < t.len() && t.subrange(t.len() - m@.len(), t.len() as int) == m@
        }),
        ({
            let t = status_text(DeviceStatus::Error(m), language);
            m@.len() < t.len() && t.subrange(t.len() - m@.len(), t.len() as int) == m@
        }),
{
    reveal_strlit("Ошибка чтения: ");
    reveal_strlit("Read error: ");
    reveal_strlit("Ошибка: ");
    reveal_strlit("Error: ");
    let t = status_text(DeviceStatus::ReadError(m), language);
    assert(t.subrange(t.len() - m@.len(), t.len() as int) =~= m@);
    let u = status_text(DeviceStatus::Error(m), language);
    assert(u.subrange(u.len() - m@.len(), u.len() as int) =~= m@);
}

/// The text of `status` on the status sensor, in `language`.
pub fn format_device_status(status: &DeviceStatus, language: &str) -> (res: String)
    ensures
        res@ == status_text(*status, language@),
{
    let ru = str_equal(language, "ru");
    match status {
        DeviceStatus::Online => String::from_str(if ru { "В сети" } else { "Online" }),
        DeviceStatus::Offline => String::from_str(if ru { "Отключено" } else { "Offline" }),
        DeviceStatus::UsbNotFound => String::from_str(
            if ru { "USB устройство не найдено" } else { "USB device not found" },
        ),
        DeviceStatus::PermissionDenied => String::from_str(
            if ru { "Нет доступа к USB" } else { "USB permission denied" },
        ),
        DeviceStatus::ReadError(m) => {
            let mut res = String::from_str(if ru { "Ошибка чтения: " } else { "Read error: " });
            res.append(m.as_str());
            res
        },
        DeviceStatus::Error(m) => {
            let mut res = String::from_str(if ru { "Ошибка: " } else { "Error: " });
            res.append(m.as_str());
            res
        },
    }
}

/// The texts held by a list of strings.
pub open spec fn texts(lines: Seq<String>) -> Seq<Seq<char>> {
    lines.map_values(|line: String| line@)
}

/// The diagnostic record that accompanies a status report.
#[derive(Clone, Debug)]
pub struct StatusDetails {
    pub code: String,
    pub severity: String,
    pub description: String,
    pub error_message: Option<String>,
    pub troubleshooting: Option<Vec<String>>,
}

/// The code, severity and description of each status.
pub open spec fn details_summary(status: DeviceStatus) -> (Seq<char>, Seq<char>, Seq<char>) {
    match status {
        DeviceStatus::Online => ("online"@, "info"@, "Device is functioning normally"@),
        DeviceStatus::Offline => ("offline"@, "warning"@, "Device is not responding"@),
        DeviceStatus::UsbNotFound => ("usb_not_found"@, "error"@, "USB weather station device not detected"@),
        DeviceStatus::PermissionDenied => ("permission_denied"@, "error"@, "No permission to access USB device"@),
        DeviceStatus::ReadError(_) => ("read_error"@, "error"@, "Failed to read data from device"@),
        DeviceStatus::Error(_) => ("general_error"@, "error"@, "General device error"@),
    }
}

/// The error text that each status carries into its details, if any.
pub open spec fn details_message(status: DeviceStatus) -> Option<Seq<char>> {
    match status {
        DeviceStatus::ReadError(m) => Some(m@),
        DeviceStatus::Error(m) => Some(m@),
        _ => None,
    }
}

/// The troubleshooting steps suggested for each status, if any.
pub open spec fn details_steps(status: DeviceStatus) -> Option<Seq<Seq<char>>> {
    match status {
        DeviceStatus::UsbNotFound => Some(
            seq![
                "Check USB connection"@,
                "Verify device vendor/product ID (1941:8021)"@,
                "Try different USB port"@,
            ],
        ),
        DeviceStatus::PermissionDenied => Some(
            seq![
                "Check udev rules in /etc/udev/rules.d/"@,
                "Add user to plugdev group"@,
                "Run with elevated privileges (not recommended)"@,
            ],
        ),
        DeviceStatus::ReadError(_) => Some(
            seq![
                "Check USB connection stability"@,
                "Verify device is not in use by another process"@,
                "Try reconnecting the device"@,
            ],
        ),
        _ => None,
    }
}

fn three_lines(first: &str, second: &str, third: &str) -> (lines: Vec<String>)
    ensures
        texts(lines@) == seq![first@, second@, third@],
{
    let mut lines: Vec<String> = Vec::new();
    lines.push(String::from_str(first));
    lines.push(String::from_str(second));
    lines.push(String::from_str(third));
    assert(texts(lines@) =~= seq![first@, second@, third@]);
    lines
}

fn details(code: &str, severity: &str, description: &str, error_message: Option<String>, troubleshooting: Option<Vec<String>>) -> (d: StatusDetails)
    ensures
        d.code@ == code@,
        d.severity@ == severity@,
        d.description@ == description@,
        d.error_message == error_message,
        d.troubleshooting == troubleshooting,
{
    StatusDetails {
        code: String::from_str(code),
        severity: String::from_str(severity),
        description: String::from_str(description),
        error_message,
        troubleshooting,
    }
}

/// The diagnostic details of `status`.
pub fn get_status_details(status: &DeviceStatus) -> (d: StatusDetails)
    ensures
        (d.code@, d.severity@, d.description@) == details_summary(*status),
        match d.error_message {
            Some(m) => details_message(*status) == Some(m@),
            None => details_message(*status) is None,
        },
        match d.troubleshooting {
            Some(lines) => details_steps(*status) == Some(texts(lines@)),
            None => details_steps(*status) is None,
        },
{
    match status {
        DeviceStatus::Online => details("online", "info", "Device is functioning normally", None, None),
        DeviceStatus::Offline => details("offline", "warning", "Device is not responding", None, None),
        DeviceStatus::UsbNotFound => details(
            "usb_not_found",
            "error",
            "USB weather station device not detected",
            None,
            Some(
                three_lines(
                    "Check USB connection",
                    "Verify device vendor/product ID (1941:8021)",
                    "Try different USB port",
                ),
            ),
        ),
        DeviceStatus::PermissionDenied => details(
            "permission_denied",
            "error",
            "No permission to access USB device",
            None,
            Some(
                three_lines(
                    "Check udev rules in /etc/udev/rules.d/",
                    "Add user to plugdev group",
                    "Run with elevated privileges (not recommended)",
                ),
            ),
        ),
        DeviceStatus::ReadError(m) => details(
            "read_error",
            "error",
            "Failed to read data from device",
            Some(m.clone()),
            Some(
                three_lines(
                    "Check USB connection stability",
                    "Verify device is not in use by another process",
                    "Try reconnecting the device",
                ),
            ),
        ),
        DeviceStatus::Error(m) => details(
            "general_error",
            "error",
            "General device error",
            Some(m.clone()),
            None,
        ),
    }
}

/// The text before the first byte in a bad-data failure.
spec fn bad_data_prefix() -> Seq<char> {
    "Bad data returned, first byte: 0x"@
}

/// The text before the byte count in a short-read failure.
spec fn short_read_prefix() -> Seq<char> {
    "Expected 32 bytes, got "@
}

/// The station's own failures are reported under the status they name: a
/// missing station as "USB device not found", a fixed block without its
/// marker as a read error, and a short answer as a general error; the last
/// two carry the failure's text.
pub proof fn station_failures_reported_by_kind(e: StationError)
    ensures
        e is NotFound ==> names_missing_device(error_text(e)),
        e is BadData ==> !names_missing_device(error_text(e)) && !names_denied_access(error_text(e))
            && names_read_failure(error_text(e)),
        e is ShortRead ==> !names_missing_device(error_text(e)) && !names_denied_access(error_text(e))
            && !names_read_failure(error_text(e)),
{
    reveal_strlit("not found");
    reveal_strlit("Device not found");
    reveal_strlit("permission");
    reveal_strlit("Access denied");
    reveal_strlit("read");
    reveal_strlit("Bad data");
    match e {
        StationError::NotFound { vendor_id, product_id } => {
            reveal_strlit("Weather station device not found (vendor: 0x");
            let head = "Weather station device not found (vendor: 0x"@;
            let hay = error_text(e);
            assert(hay == head + (hex_text(vendor_id as nat) + ", product: 0x"@ + hex_text(product_id as nat) + ")"@));
            assert(hay.subrange(23, 32) =~= "not found"@);
            assert(hay.subrange(23, 23 + "not found"@.len() as int) == "not found"@);
        },
        StationError::BadData { first_byte } => {
            let digits = hex_text(first_byte as nat);
            lemma_hex_digits(first_byte as nat);
            assert(fits_nowhere_from(bad_data_prefix(), "not found"@, 0)
                && fits_nowhere_from(bad_data_prefix(), "Device not found"@, 0)
                && fits_nowhere_from(bad_data_prefix(), "permission"@, 0)
                && fits_nowhere_from(bad_data_prefix(), "Access denied"@, 0)) by {
                reveal_strlit("Bad data returned, first byte: 0x");
                reveal_with_fuel(fits_nowhere_from, 34);
                reveal_with_fuel(differs_from, 3);
            }
            lemma_absent_before_digits(bad_data_prefix(), digits, "not found"@);
            lemma_absent_before_digits(bad_data_prefix(), digits, "Device not found"@);
            lemma_absent_before_digits(bad_data_prefix(), digits, "permission"@);
            lemma_absent_before_digits(bad_data_prefix(), digits, "Access denied"@);
            reveal_strlit("Bad data returned, first byte: 0x");
            let hay = error_text(e);
            assert(hay.subrange(0, 8) =~= "Bad data"@);
            assert(hay.subrange(0, 0 + "Bad data"@.len() as int) == "Bad data"@);
        },
        StationError::ShortRead { bytes_read } => {
            let digits = decimal_text(bytes_read as nat);
            lemma_decimal_digits(bytes_read as nat);
            assert(fits_nowhere_from(short_read_prefix(), "not found"@, 0)
                && fits_nowhere_from(short_read_prefix(), "Device not found"@, 0)
                && fits_nowhere_from(short_read_prefix(), "permission"@, 0)
                && fits_nowhere_from(short_read_prefix(), "Access denied"@, 0)
                && fits_nowhere_from(short_read_prefix(), "read"@, 0)
                && fits_nowhere_from(short_read_prefix(), "Bad data"@, 0)) by {
                reveal_strlit("Expected 32 bytes, got ");
                reveal_with_fuel(fits_nowhere_from, 24);
                reveal_with_fuel(differs_from, 4);
            }
            lemma_absent_before_digits(short_read_prefix(), digits, "not found"@);
            lemma_absent_before_digits(short_read_prefix(), digits, "Device not found"@);
            lemma_absent_before_digits(short_read_prefix(), digits, "permission"@);
            lemma_absent_before_digits(short_read_prefix(), digits, "Access denied"@);
            lemma_absent_before_digits(short_read_prefix(), digits, "read"@);
            lemma_absent_before_digits(short_read_prefix(), digits, "Bad data"@);
        },
    }
}

} // verus!
