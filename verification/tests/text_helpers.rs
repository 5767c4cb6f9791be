use cms_core::errors::FieldError;
use cms_core::text::{format_u64, hex_encode, parse_u32};

#[test]
fn decimal_formatting_writes_plain_numerals() {
    assert_eq!(format_u64(0), "0");
    assert_eq!(format_u64(7), "7");
    assert_eq!(format_u64(10), "10");
    assert_eq!(format_u64(40960), "40960");
    assert_eq!(format_u64(u64::MAX), "18446744073709551615");
}

#[test]
fn decimal_parsing_reads_back_what_formatting_wrote() {
    for n in [0u32, 1, 9, 10, 99, 1000, 65535, u32::MAX] {
        assert_eq!(parse_u32(&format_u64(n as u64)), Some(n));
    }
}

#[test]
fn decimal_parsing_rejects_empty_junk_and_overflow() {
    assert_eq!(parse_u32(""), None);
    assert_eq!(parse_u32("12a"), None);
    assert_eq!(parse_u32("-5"), None);
    assert_eq!(parse_u32(" 5"), None);
    assert_eq!(parse_u32("4294967295"), Some(u32::MAX));
    assert_eq!(parse_u32("4294967296"), None);
    assert_eq!(parse_u32("99999999999999999999"), None);
}

#[test]
fn hex_encoding_is_two_lowercase_digits_per_byte() {
    assert_eq!(hex_encode(&vec![]), "");
    assert_eq!(hex_encode(&vec![0x00]), "00");
    assert_eq!(hex_encode(&vec![0xff, 0x0a, 0x30]), "ff0a30");
    assert_eq!(hex_encode(&vec![0xde, 0xad, 0xbe, 0xef]), "deadbeef");
}

#[test]
fn every_error_kind_carries_its_code_and_field() {
    let cases = vec![
        (FieldError::Unauthenticated, 401, None),
        (FieldError::PermissionDenied, 403, None),
        (FieldError::InvalidParams("page".to_string()), 400, Some("page")),
        (FieldError::NotFound("cid".to_string()), 404, Some("cid")),
        (FieldError::AlreadyExists("slug".to_string()), 409, Some("slug")),
        (FieldError::DatabaseFailed("detail".to_string()), 500, Some("detail")),
    ];
    for (e, code, field) in cases {
        assert_eq!(e.code(), code);
        assert_eq!(e.field().map(String::as_str), field);
    }
}
