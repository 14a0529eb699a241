use raffle::check::check;
use raffle::check::CHECKING_TAG;
use raffle::check::WANTED_SUM;
use raffle::generate::derive_parameters;
use raffle::generate::modinverse;
use raffle::vouch::vouch;
use raffle::vouch::VOUCHING_TAG;

#[test]
fn test_inverse() {
    assert_eq!(modinverse(u64::MAX), u64::MAX);
    assert_eq!(modinverse(1u64), 1u64);
    assert_eq!(modinverse(3u64), 12297829382473034411u64);
}

#[test]
fn test_inverse_samples() {
    // A handful of pseudo-random odd values: a * modinverse(a) == 1.
    let mut a: u64 = 0x9e3779b97f4a7c15;
    for _ in 0..64 {
        let odd = a | 1;
        assert_eq!(odd.wrapping_mul(modinverse(odd)), 1);
        a = a.wrapping_mul(6364136223846793005).wrapping_add(1442695040888963407);
    }
}

#[test]
fn test_derive() {
    assert_eq!(
        derive_parameters(0, 0),
        (
            WANTED_SUM.wrapping_neg(),
            VOUCHING_TAG ^ 1,
            (0, !CHECKING_TAG)
        )
    );
    assert_eq!(
        derive_parameters(u64::MAX, 0),
        (
            WANTED_SUM.wrapping_neg(),
            !VOUCHING_TAG,
            (0, CHECKING_TAG ^ 1)
        )
    );
    assert_eq!(
        derive_parameters(1, 1),
        (
            13020151265475858601,
            7453010330410905431,
            (1, 10993733730414794684)
        )
    );
    assert_eq!(
        derive_parameters(37, 13),
        (
            12023029964194261217,
            7453010330410905459,
            (13, 10110629933032573968)
        )
    );
    assert_eq!(
        derive_parameters(u64::MAX, u64::MAX),
        (
            13020151265475858601,
            u64::MAX ^ VOUCHING_TAG,
            (u64::MAX, 7453010343294756930)
        )
    );
}

#[test]
fn test_vouch_check_round_trip() {
    // For assorted seed pairs and values, checking a vouched value
    // succeeds, and a mismatched value fails.
    let seeds = [
        (0u64, 0u64),
        (u64::MAX, u64::MAX),
        (1, 1),
        (43, 123),
        (0x123456789abcdef0, 0xfedcba9876543210),
    ];
    let values = [0u64, 1, 2, 42, 0x110d2ae90b38f555, u64::MAX];
    for &(s, u) in seeds.iter() {
        let (offset, scale, checking) = derive_parameters(s, u);
        for &v in values.iter() {
            let voucher = vouch(offset, scale, checking, v);
            assert!(check(checking.0, checking.1, v, voucher));
            assert!(!check(checking.0, checking.1, v.wrapping_add(1), voucher));
            assert!(!check(checking.0, checking.1, v, voucher ^ 0x8000));
        }
    }
}

#[test]
fn test_swap_params_check_fails() {
    // Swapping the vouching and checking roles must break the invariant:
    // the composed map cannot match at both 0 and 1.
    let mut params = derive_parameters(43, 123);
    std::mem::swap(&mut params.0, &mut params.2 .0);
    std::mem::swap(&mut params.1, &mut params.2 .1);

    // Compute the swapped vouch transform by hand (vouch itself would fault).
    let v0 = 0u64
        .wrapping_add(params.0)
        .wrapping_mul(params.1 ^ VOUCHING_TAG);
    let v1 = 1u64
        .wrapping_add(params.0)
        .wrapping_mul(params.1 ^ VOUCHING_TAG);
    let pass0 = check(params.2 .0, params.2 .1, 0, v0);
    let pass1 = check(params.2 .0, params.2 .1, 1, v1);
    assert!(!(pass0 && pass1));
}

#[test]
fn test_swap_params_retag_check_fails() {
    // Swapping roles and re-XOR-ing the tags must still break the
    // invariant for these seeds: the composed map is a constant that
    // misses WANTED_SUM at every point.
    let mut params = derive_parameters(43, 123);
    std::mem::swap(&mut params.0, &mut params.2 .0);
    std::mem::swap(&mut params.1, &mut params.2 .1);

    params.1 = params.1 ^ VOUCHING_TAG ^ CHECKING_TAG;
    params.2 .1 = params.2 .1 ^ VOUCHING_TAG ^ CHECKING_TAG;

    for v in [0u64, 1, 2, 0x110d2ae90b38f555] {
        let voucher = v
            .wrapping_add(params.0)
            .wrapping_mul(params.1 ^ VOUCHING_TAG);
        assert!(!check(params.2 .0, params.2 .1, v, voucher));
    }
}
