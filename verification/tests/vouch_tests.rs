use raffle::vouch::parse_bytes;

#[test]
fn vouch_test_parse_bytes() {
    assert_eq!(
        parse_bytes(
            format!(
                "VOUCH-{:016x}-{:016x}-{:016x}-{:016x}",
                1234, 5678, 987, 432
            )
            .as_bytes()
        ),
        Ok((1234, 5678, (987, 432)))
    );
    // Wrong prefix
    assert!(parse_bytes(
        format!(
            "CHECK-{:016x}-{:016x}-{:016x}-{:016x}",
            1234, 5678, 987, 432
        )
        .as_bytes()
    )
    .is_err());

    // Wrong format
    assert!(parse_bytes(format!("CHECK-{:016x}-{:016x}", 1234, 5678).as_bytes()).is_err());

    // Too short
    assert!(parse_bytes(
        format!(
            "VOUCH-{:016x}-{:016x}-{:016x}-{:015x}",
            1234, 5678, 987, 432
        )
        .as_bytes()
    )
    .is_err());
    // Too long
    assert!(parse_bytes(
        format!("VOUCH-{:016x}-{:016x}-{:016x}-{:017}", 1234, 5678, 987, 432).as_bytes()
    )
    .is_err());
}

#[test]
fn test_parse_bytes_fail_prefix() {
    assert!(parse_bytes(
        format!(
            "OOUCH-{:016x}-{:016x}-{:016x}-{:016x}",
            1234, 5678, 987, 432
        )
        .as_bytes()
    )
    .is_err());
    assert!(parse_bytes(
        format!(
            "VUUCH-{:016x}-{:016x}-{:016x}-{:016x}",
            1234, 5678, 987, 432
        )
        .as_bytes()
    )
    .is_err());
    assert!(parse_bytes(
        format!(
            "VOCUH-{:016x}-{:016x}-{:016x}-{:016x}",
            1234, 5678, 987, 432
        )
        .as_bytes()
    )
    .is_err());
    assert!(parse_bytes(
        format!(
            "VOUDH-{:016x}-{:016x}-{:016x}-{:016x}",
            1234, 5678, 987, 432
        )
        .as_bytes()
    )
    .is_err());
    assert!(parse_bytes(
        format!(
            "VOUCC-{:016x}-{:016x}-{:016x}-{:016x}",
            1234, 5678, 987, 432
        )
        .as_bytes()
    )
    .is_err());
    assert!(parse_bytes(
        format!(
            "VOUCH.{:016x}-{:016x}-{:016x}-{:016x}",
            1234, 5678, 987, 432
        )
        .as_bytes()
    )
    .is_err());
}

#[test]
fn test_parse_bytes_fail_hyphens() {
    // Bad hyphens
    assert!(parse_bytes(
        format!(
            "VOUCH-{:016x}.{:016x}-{:016x}-{:016x}",
            1234, 5678, 987, 432
        )
        .as_bytes()
    )
    .is_err());
    assert!(parse_bytes(
        format!(
            "VOUCH-{:016x}-{:016x}.{:016x}-{:016x}",
            1234, 5678, 987, 432
        )
        .as_bytes()
    )
    .is_err());
    assert!(parse_bytes(
        format!(
            "VOUCH-{:016x}-{:016x}-{:016x}.{:016x}",
            1234, 5678, 987, 432
        )
        .as_bytes()
    )
    .is_err());
}

#[test]
fn test_parse_bytes_fail_hex() {
    // Bad hex
    assert!(parse_bytes(
        format!(
            "VOUCH-{:015x}--{:016x}-{:016x}-{:016x}",
            1234, 5678, 987, 432
        )
        .as_bytes()
    )
    .is_err());
    assert!(parse_bytes(
        format!(
            "VOUCH-{:016x}-{:015x}--{:016x}-{:016x}",
            1234, 5678, 987, 432
        )
        .as_bytes()
    )
    .is_err());
    assert!(parse_bytes(
        format!(
            "VOUCH-{:016x}-{:016x}-{:015x}--{:016x}",
            1234, 5678, 987, 432
        )
        .as_bytes()
    )
    .is_err());
    assert!(parse_bytes(
        format!(
            "VOUCH-{:016x}-{:016x}-{:016x}-{:015x}-",
            1234, 5678, 987, 432
        )
        .as_bytes()
    )
    .is_err());
}

#[test]
fn vouch_test_serialize_round_trip() {
    let bytes = raffle::vouch::serialize_bytes(1234, 5678, 987, 432);
    assert_eq!(
        String::from_utf8(bytes.clone()).unwrap(),
        format!(
            "VOUCH-{:016x}-{:016x}-{:016x}-{:016x}",
            1234, 5678, 987, 432
        )
    );
    assert_eq!(parse_bytes(&bytes), Ok((1234, 5678, (987, 432))));

    let bytes = raffle::vouch::serialize_bytes(u64::MAX, 0, 1, u64::MAX - 1);
    assert_eq!(parse_bytes(&bytes), Ok((u64::MAX, 0, (1, u64::MAX - 1))));
    assert_eq!(bytes.len(), 73);
}
