use raffle::check::parse_bytes;

#[test]
fn check_test_parse_bytes() {
    assert_eq!(
        parse_bytes(format!("CHECK-{:016x}-{:016x}", 1234, 5678).as_bytes()),
        Ok((1234, 5678))
    );
    // Too long
    assert!(parse_bytes(format!("CHECK-{:016x}-{:016x}-suffix", 1234, 5678).as_bytes()).is_err());
    // Too short
    assert!(parse_bytes(format!("CHECK-{:016x}-{:015x}", 1234, 5678).as_bytes()).is_err());
    // Bad prefix
    assert!(parse_bytes(format!("VOUCH-{:016x}-{:016x}-", 1234, 5678).as_bytes()).is_err());

    assert!(parse_bytes(format!("CHEC-{:016x}-{:016x}-", 1234, 5678).as_bytes()).is_err());
    assert!(parse_bytes(format!("AHECK-{:016x}-{:016x}", 1234, 5678).as_bytes()).is_err());
    assert!(parse_bytes(format!("CCECK-{:016x}-{:016x}", 1234, 5678).as_bytes()).is_err());
    assert!(parse_bytes(format!("CHHCK-{:016x}-{:016x}", 1234, 5678).as_bytes()).is_err());
    assert!(parse_bytes(format!("CHEKK-{:016x}-{:016x}", 1234, 5678).as_bytes()).is_err());
    assert!(parse_bytes(format!("CHEKC-{:016x}-{:016x}", 1234, 5678).as_bytes()).is_err());
    assert!(parse_bytes(format!("CHECK.{:016x}-{:016x}", 1234, 5678).as_bytes()).is_err());

    // Wrong format
    assert!(parse_bytes(
        format!(
            "VOUCH-{:016x}-{:016x}-{:016x}-{:016x}",
            1234, 5678, 987, 432
        )
        .as_bytes()
    )
    .is_err());
    // Bad dashes
    assert!(parse_bytes(format!("CHECK-{:016x}{:016x}-", 1234, 5678).as_bytes()).is_err());
    // Wrong hex length
    assert!(parse_bytes(format!("CHECK-{:015x}-{:017x}", 1234, 5678).as_bytes()).is_err());
    assert!(parse_bytes(format!("CHECK-{:017x}-{:015x}", 1234, 5678).as_bytes()).is_err());
    assert!(parse_bytes(format!("CHECK-{:016x}-{:017x}", 1234, 5678).as_bytes()).is_err());
    assert!(parse_bytes(format!("CHECK-{:016x}-{:015x}", 1234, 5678).as_bytes()).is_err());
    assert!(parse_bytes(format!("CHECK-{:016x}-{:015x}-", 1234, 5678).as_bytes()).is_err());
}

#[test]
fn check_test_serialize_round_trip() {
    let bytes = raffle::check::serialize_bytes(1234, 5678);
    assert_eq!(
        String::from_utf8(bytes.clone()).unwrap(),
        format!("CHECK-{:016x}-{:016x}", 1234, 5678)
    );
    assert_eq!(parse_bytes(&bytes), Ok((1234, 5678)));

    let bytes = raffle::check::serialize_bytes(u64::MAX, 0);
    assert_eq!(parse_bytes(&bytes), Ok((u64::MAX, 0)));
    assert_eq!(bytes.len(), 39);
}

#[test]
fn check_test_error_messages_distinct() {
    let short = parse_bytes(b"CHECK-").unwrap_err();
    let long = parse_bytes(format!("CHECK-{:016x}-{:016x}!", 1, 2).as_bytes()).unwrap_err();
    let prefix = parse_bytes(format!("XHECK-{:016x}-{:016x}", 1, 2).as_bytes()).unwrap_err();
    let hex1 = parse_bytes(format!("CHECK-{:015x}g-{:016x}", 1, 2).as_bytes()).unwrap_err();
    let dash = parse_bytes(format!("CHECK-{:016x}.{:016x}", 1, 2).as_bytes()).unwrap_err();
    let hex2 = parse_bytes(format!("CHECK-{:016x}-{:015x}g", 1, 2).as_bytes()).unwrap_err();
    let messages = [short, long, prefix, hex1, dash, hex2];
    for (i, a) in messages.iter().enumerate() {
        for (j, b) in messages.iter().enumerate() {
            if i != j {
                assert_ne!(a, b);
            }
        }
    }
}
