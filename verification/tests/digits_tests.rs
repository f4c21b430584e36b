use podclient::digits::{format_position, i32_dec, u64_dec};

#[test]
fn format_position_renders_hours_minutes_seconds() {
    assert_eq!(format_position(3661), "01:01:01");
}

#[test]
fn format_position_pads_small_values() {
    assert_eq!(format_position(0), "00:00:00");
    assert_eq!(format_position(9), "00:00:09");
    assert_eq!(format_position(59), "00:00:59");
    assert_eq!(format_position(60), "00:01:00");
    assert_eq!(format_position(600), "00:10:00");
    assert_eq!(format_position(3600), "01:00:00");
}

#[test]
fn format_position_lets_hours_grow() {
    assert_eq!(format_position(100 * 3600 + 61), "100:01:01");
}

#[test]
fn u64_dec_renders_decimal() {
    assert_eq!(u64_dec(0), "0");
    assert_eq!(u64_dec(7), "7");
    assert_eq!(u64_dec(12345), "12345");
    assert_eq!(u64_dec(u64::MAX), "18446744073709551615");
}

#[test]
fn i32_dec_renders_sign() {
    assert_eq!(i32_dec(42), "42");
    assert_eq!(i32_dec(-7), "-7");
    assert_eq!(i32_dec(0), "0");
    assert_eq!(i32_dec(i32::MIN), "-2147483648");
    assert_eq!(i32_dec(i32::MAX), "2147483647");
}
