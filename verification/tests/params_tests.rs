use raffle::params::CheckingParameters;
use raffle::params::SeedSource;
use raffle::params::VouchingParameters;

struct FixedSeeds {
    seeds: Vec<u64>,
    next: usize,
}

impl SeedSource for FixedSeeds {
    type Error = &'static str;

    fn next_seed(&mut self) -> Result<u64, &'static str> {
        if self.next < self.seeds.len() {
            let v = self.seeds[self.next];
            self.next += 1;
            Ok(v)
        } else {
            Err("out of seeds")
        }
    }
}

#[test]
fn test_generate_uses_two_seeds_in_order() {
    let mut source = FixedSeeds { seeds: vec![1, 1], next: 0 };
    let params = VouchingParameters::generate(&mut source).unwrap();
    assert_eq!(source.next, 2);
    assert_eq!(params, VouchingParameters::derive(1, 1));
    assert_eq!(params.offset, 13020151265475858601);
    assert_eq!(params.scale, 7453010330410905431);
    assert_eq!(params.checking.unoffset, 1);
    assert_eq!(params.checking.unscale, 10993733730414794684);
}

#[test]
fn test_generate_propagates_seed_failure() {
    let mut empty = FixedSeeds { seeds: vec![], next: 0 };
    assert_eq!(
        VouchingParameters::generate(&mut empty).unwrap_err(),
        "out of seeds"
    );

    // A failure on the second pull also aborts generation.
    let mut one = FixedSeeds { seeds: vec![7], next: 0 };
    assert_eq!(
        VouchingParameters::generate(&mut one).unwrap_err(),
        "out of seeds"
    );
}

#[test]
fn test_vouch_and_check_through_types() {
    let params = VouchingParameters::derive(37, 13);
    let checking = params.checking_parameters();
    for v in [0u64, 1, 2, 99, u64::MAX] {
        let voucher = params.vouch(v);
        assert!(checking.check(v, voucher));
        assert!(!checking.check(v ^ 1, voucher));
    }
}

#[test]
fn test_parameters_ascii_round_trip() {
    let params = VouchingParameters::derive(0xdeadbeef, 0xfeedface);
    let bytes = params.to_ascii_bytes();
    assert_eq!(bytes.len(), 73);
    let back = VouchingParameters::parse(&bytes).unwrap();
    assert_eq!(back, params);

    let checking = params.checking_parameters();
    let bytes = checking.to_ascii_bytes();
    assert_eq!(bytes.len(), 39);
    let back = CheckingParameters::parse(&bytes).unwrap();
    assert_eq!(back, checking);
}

#[test]
fn test_parse_checking_known_string() {
    let parsed = CheckingParameters::parse(b"CHECK-00000000000004d2-000000000000162e").unwrap();
    assert_eq!(parsed, CheckingParameters { unoffset: 1234, unscale: 5678 });

    // The same string with a suffix, or with one digit removed from
    // either field, must fail.
    assert!(CheckingParameters::parse(b"CHECK-00000000000004d2-000000000000162e-suffix").is_err());
    assert!(CheckingParameters::parse(b"CHECK-0000000000004d2-000000000000162e").is_err());
    assert!(CheckingParameters::parse(b"CHECK-00000000000004d2-00000000000162e").is_err());
}

#[test]
fn test_is_consistent() {
    let params = VouchingParameters::derive(43, 123);
    assert!(params.is_consistent());

    // Corrupting any field breaks consistency.
    let mut broken = params;
    broken.offset = broken.offset.wrapping_add(1);
    assert!(!broken.is_consistent());

    let mut broken = params;
    broken.scale ^= 2;
    assert!(!broken.is_consistent());

    let mut broken = params;
    broken.checking.unoffset = broken.checking.unoffset.wrapping_sub(3);
    assert!(!broken.is_consistent());

    let mut broken = params;
    broken.checking.unscale ^= 0x10;
    assert!(!broken.is_consistent());

    // A parsed, never-derived set can be vetted before use.
    let parsed = VouchingParameters::parse(
        format!(
            "VOUCH-{:016x}-{:016x}-{:016x}-{:016x}",
            1234, 5678, 987, 432
        )
        .as_bytes(),
    )
    .unwrap();
    assert!(!parsed.is_consistent());
}
