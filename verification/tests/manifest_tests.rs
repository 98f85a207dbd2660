use updater::digest::md5_hex;
use updater::error::UpdateError;
use updater::manifest::parse_timestamp;

#[test]
fn parses_plain_timestamps() {
    assert_eq!(parse_timestamp("0"), Ok(0));
    assert_eq!(parse_timestamp("1700000000"), Ok(1700000000));
    assert_eq!(parse_timestamp("000042"), Ok(42));
}

#[test]
fn parses_signed_timestamps() {
    assert_eq!(parse_timestamp("-5"), Ok(-5));
    assert_eq!(parse_timestamp("+7"), Ok(7));
    assert_eq!(parse_timestamp("-0"), Ok(0));
}

#[test]
fn parses_the_64_bit_extremes() {
    assert_eq!(parse_timestamp("9223372036854775807"), Ok(i64::MAX));
    assert_eq!(parse_timestamp("-9223372036854775808"), Ok(i64::MIN));
}

#[test]
fn rejects_values_out_of_range() {
    assert_eq!(parse_timestamp("9223372036854775808"), Err(UpdateError::Timestamp));
    assert_eq!(parse_timestamp("-9223372036854775809"), Err(UpdateError::Timestamp));
    assert_eq!(
        parse_timestamp("999999999999999999999999999999"),
        Err(UpdateError::Timestamp)
    );
}

#[test]
fn rejects_malformed_timestamps() {
    assert_eq!(parse_timestamp(""), Err(UpdateError::Timestamp));
    assert_eq!(parse_timestamp("+"), Err(UpdateError::Timestamp));
    assert_eq!(parse_timestamp("-"), Err(UpdateError::Timestamp));
    assert_eq!(parse_timestamp("12a"), Err(UpdateError::Timestamp));
    assert_eq!(parse_timestamp(" 17"), Err(UpdateError::Timestamp));
    assert_eq!(parse_timestamp("1.5"), Err(UpdateError::Timestamp));
    assert_eq!(parse_timestamp("--3"), Err(UpdateError::Timestamp));
}

#[test]
fn fingerprint_of_empty_input() {
    assert_eq!(md5_hex(&vec![]), "d41d8cd98f00b204e9800998ecf8427e");
}

#[test]
fn fingerprint_of_known_bytes() {
    assert_eq!(md5_hex(&b"abc".to_vec()), "900150983cd24fb0d6963f7d28e17f72");
    assert_eq!(
        md5_hex(&b"The quick brown fox jumps over the lazy dog".to_vec()),
        "9e107d9d372bb6826bd81d3542a419d6"
    );
}
