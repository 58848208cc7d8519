use ffbeast_wheel_api::protocol::license::parse_license_key;

#[test]
fn license_license_valid_parses_three_u32s() {
    let key = parse_license_key("AABBCCDD-11223344-DEADBEEF").unwrap();
    assert_eq!(key[0], 0xAABB_CCDD);
    assert_eq!(key[1], 0x1122_3344);
    assert_eq!(key[2], 0xDEAD_BEEF);
}

#[test]
fn license_license_lowercase_hex_accepted() {
    let key = parse_license_key("aabbccdd-11223344-deadbeef").unwrap();
    assert_eq!(key[0], 0xAABB_CCDD);
}

#[test]
fn license_license_with_leading_trailing_whitespace_accepted() {
    assert!(parse_license_key("  AABBCCDD-11223344-DEADBEEF  ").is_ok());
}

#[test]
fn license_license_wrong_segment_count_is_err() {
    assert!(parse_license_key("AABBCCDD-11223344").is_err());
    assert!(parse_license_key("AABBCCDD-11223344-DEADBEEF-00000000").is_err());
}

#[test]
fn license_license_short_segment_is_err() {
    assert!(parse_license_key("AABB-11223344-DEADBEEF").is_err());
}

#[test]
fn license_license_non_hex_chars_are_err() {
    assert!(parse_license_key("GGHHIIJJ-11223344-DEADBEEF").is_err());
}
