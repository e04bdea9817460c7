use sensor_verification::message::{create_message, push_decimal};

#[test]
fn message_joins_fields_with_separators() {
    let m = create_message("temperature", 1700000000, b"21.5C", "device-001");
    assert_eq!(m, b"temperature|1700000000|21.5C|device-001".to_vec());
}

#[test]
fn message_writes_negative_timestamps_with_sign() {
    let m = create_message("t", -42, &[0u8, 255u8], "d");
    assert_eq!(m, vec![b't', b'|', b'-', b'4', b'2', b'|', 0u8, 255u8, b'|', b'd']);
}

#[test]
fn message_with_empty_fields_and_zero_timestamp() {
    let m = create_message("", 0, &[], "");
    assert_eq!(m, b"|0||".to_vec());
}

#[test]
fn decimal_of_extreme_timestamps() {
    let mut out = Vec::new();
    push_decimal(i64::MIN, &mut out);
    assert_eq!(out, b"-9223372036854775808".to_vec());
    let mut out = Vec::new();
    push_decimal(i64::MAX, &mut out);
    assert_eq!(out, b"9223372036854775807".to_vec());
    let mut out = b"x".to_vec();
    push_decimal(10, &mut out);
    assert_eq!(out, b"x10".to_vec());
}

#[test]
fn message_keeps_multibyte_text() {
    let m = create_message("é", 7, b"", "ü");
    assert_eq!(m, "é|7||ü".as_bytes().to_vec());
}
