use weather_station::{chars_of, contains, push_decimal, push_hex, str_equal};

#[test]
fn substring_search() {
    assert!(contains("Weather station device not found", "not found"));
    assert!(contains("abc", ""));
    assert!(contains("", ""));
    assert!(!contains("", "a"));
    assert!(!contains("ab", "abc"));
    assert!(contains("Ошибка чтения", "чтения"));
    assert!(!contains("Read", "read"));
}

#[test]
fn characters_of_a_text() {
    assert_eq!(chars_of("aЖb"), vec!['a', 'Ж', 'b']);
    assert!(chars_of("").is_empty());
}

#[test]
fn equal_texts() {
    assert!(str_equal("ru", "ru"));
    assert!(!str_equal("ru", "en"));
    assert!(!str_equal("ru", "rus"));
}

#[test]
fn numbers_in_decimal_and_hex() {
    let mut s = String::from("x=");
    push_decimal(&mut s, 0);
    assert_eq!(s, "x=0");
    let mut s = String::new();
    push_decimal(&mut s, 18446744073709551615);
    assert_eq!(s, "18446744073709551615");
    let mut s = String::new();
    push_hex(&mut s, 0x1941);
    assert_eq!(s, format!("{:x}", 0x1941));
    let mut s = String::new();
    push_hex(&mut s, 0xdeadbeef);
    assert_eq!(s, "deadbeef");
}
