use raffle::constparse::named_u64;
use raffle::constparse::parse_hex;

#[test]
fn test_named_u64() {
    // These are the three strings we care about.
    assert_eq!(u64::from_le_bytes(*b"Vouch!OK"), 0x4b4f216863756f56u64);
    assert_eq!(
        named_u64(b"Vouch!OK", 0x4b4f216863756f56u64),
        u64::from_le_bytes(*b"Vouch!OK")
    );

    assert_eq!(u64::from_le_bytes(*b"Checking"), 0x676e696b63656843u64);
    assert_eq!(
        named_u64(b"Checking", 0x676e696b63656843u64),
        u64::from_le_bytes(*b"Checking")
    );

    assert_eq!(u64::from_le_bytes(*b"Vouching"), 0x676e696863756f56u64);
    assert_eq!(
        named_u64(b"Vouching", 0x676e696863756f56u64),
        u64::from_le_bytes(*b"Vouching")
    );
}

#[test]
fn test_parse_hex() {
    assert_eq!(parse_hex(format!("{:016x}", 42).as_bytes(), 0), Some(42));
    assert_eq!(parse_hex(format!("--{:016x}", 42).as_bytes(), 2), Some(42));
    assert_eq!(
        parse_hex(format!("{:016x}", u64::MAX).as_bytes(), 0),
        Some(u64::MAX)
    );
    assert_eq!(
        parse_hex(format!("{:016x}", 0x123456789abcdef0u64).as_bytes(), 0),
        Some(0x123456789abcdef0)
    );
    assert_eq!(
        parse_hex(format!("{:016X}", 0x123456789abcdef0u64).as_bytes(), 0),
        Some(0x123456789abcdef0)
    );
    assert_eq!(
        parse_hex(
            format!("VOUCH-{:016x}", 0xa0b1c2d3e4f56789u64).as_bytes(),
            6
        ),
        Some(0xa0b1c2d3e4f56789)
    );
}

#[test]
fn test_parse_hex_bad() {
    assert_eq!(parse_hex(format!("{:016x}", 42).as_bytes(), 1), None);
    assert_eq!(parse_hex(format!("{:016x}", 42).as_bytes(), 16), None);
    assert_eq!(parse_hex(format!("{:015x}g", 42).as_bytes(), 0), None);
    assert_eq!(parse_hex(format!("x{:015x}", 42).as_bytes(), 0), None);
}
