//! Generates pairs of vouching and checking parameters.

use vstd::prelude::*;
use vstd::arithmetic::div_mod::lemma_add_mod_noop;
use vstd::arithmetic::div_mod::lemma_fundamental_div_mod;
use vstd::arithmetic::div_mod::lemma_mod_bound;
use vstd::arithmetic::div_mod::lemma_mod_equivalence;
use vstd::arithmetic::div_mod::lemma_mod_mod;
use vstd::arithmetic::div_mod::lemma_mod_multiples_basic;
use vstd::arithmetic::div_mod::lemma_mod_multiples_vanish;
use vstd::arithmetic::div_mod::lemma_mul_mod_noop_left;
use vstd::arithmetic::div_mod::lemma_small_mod;
use vstd::arithmetic::mul::lemma_mul_is_commutative;
use vstd::arithmetic::mul::lemma_mul_unary_negation;
use vstd::arithmetic::power2::pow2;
use vstd::arithmetic::power2::lemma_pow2_adds;
use vstd::arithmetic::power2::lemma_pow2_pos;
use vstd::arithmetic::power2::lemma_pow2_strictly_increases;
use vstd::arithmetic::power2::lemma2_to64;
use vstd::bits::lemma_u64_low_bits_mask_is_mod;
use vstd::bits::lemma_low_bits_mask_values;
use crate::modmath::m64;
use crate::modmath::two_64;
use crate::modmath::lemma_m64_is_mod;
use crate::modmath::lemma_m64_equivalence;
use crate::modmath::lemma_m64_small;
use crate::modmath::lemma_m64_sub_right;
use crate::modmath::lemma_m64_neg_congruent;
use crate::modmath::lemma_m64_add_congruent;
use crate::modmath::lemma_m64_mul_congruent;
use crate::modmath::lemma_m64_sub_left;
use crate::modmath::lemma_wrapping_ops_are_m64;
use crate::check::WANTED_SUM;
use crate::check::CHECKING_TAG;
use crate::check::spec_check;
use crate::vouch::VOUCHING_TAG;
use crate::vouch::spec_vouch;
use crate::vouch::vouch;

verus! {

/// The Newton iteration seed `3 * a XOR 2` inverts an odd `a` on the low
/// five bits.
proof fn lemma_inverse_seed(a: u64, t3: u64, x0: u64, one: u64, three: u64)
    by (bit_vector)
    requires
        a & 1 == 1,
        one == 1,
        three == 3,
        (t3 * one) % 32 == (a * three) % 32,
        x0 == t3 ^ 2,
    ensures
        (a * x0) % 32 == 1,
{
}

/// One Newton step doubles the number of low bits on which `x` inverts
/// `a`: from `k` correct bits to `2 * k` (capped at the word size).
proof fn lemma_newton_step(a: u64, x: u64, k: nat)
    requires
        1 <= k <= 64,
        (a * x) % (pow2(k) as int) == 1,
    ensures
        (a * m64(x * m64(2 - m64(a * x)))) % (pow2(if 2 * k <= 64 {
            2 * k
        } else {
            64
        }) as int) == 1,
{
    let p = two_64();
    let aa = a as int;
    let xx = x as int;
    let t = m64(a * x);
    let s = m64(2 - t);
    let x1 = m64(x * s);
    let u = 2 - aa * xx;
    let j: nat = if 2 * k <= 64 {
        2 * k
    } else {
        64
    };
    lemma2_to64();
    lemma_pow2_pos(k);
    lemma_pow2_pos(j);
    lemma_pow2_strictly_increases(0, k);
    lemma_pow2_strictly_increases(0, j);

    // x1 is congruent to x * (2 - a * x), so a * x1 is congruent to
    // 1 - (a * x - 1)^2.
    lemma_m64_sub_right(2, aa * xx);
    assert(s == m64(u));
    lemma_m64_is_mod(u);
    lemma_m64_small(m64(u) as int);
    assert(m64(s as int) == m64(u));
    lemma_m64_mul_congruent(s as int, u, xx);
    lemma_mul_is_commutative(xx, s as int);
    lemma_mul_is_commutative(u, xx);
    assert(m64(xx * s) == m64(xx * u));
    lemma_m64_is_mod(xx * s);
    lemma_m64_small(x1 as int);
    assert(m64(x1 as int) == m64(xx * u));
    lemma_m64_mul_congruent(x1 as int, xx * u, aa);
    lemma_mul_is_commutative(aa, x1 as int);
    assert(m64(aa * x1) == m64((xx * u) * aa));

    let d = aa * xx - 1;
    assert((xx * u) * aa == 1 - d * d) by (nonlinear_arith)
        requires
            d == aa * xx - 1,
            u == 2 - aa * xx,
    ;
    assert(m64(aa * x1) == m64(1 - d * d));

    // a * x inverts on k bits, so d is a multiple of 2^k and d^2 is a
    // multiple of 2^(2k), hence of 2^j.
    lemma_small_mod(1, pow2(k));
    lemma_mod_equivalence(aa * xx, 1, pow2(k) as int);
    assert(d % (pow2(k) as int) == 0);
    lemma_fundamental_div_mod(d, pow2(k) as int);
    let q = d / (pow2(k) as int);
    assert(d == pow2(k) * q);
    lemma_pow2_adds(k, k);
    assert(d * d == (q * q) * (pow2(2 * k) as int)) by (nonlinear_arith)
        requires
            d == pow2(k) * q,
            pow2(k) * pow2(k) == pow2(2 * k),
    ;
    lemma_pow2_adds(j, (2 * k - j) as nat);
    lemma_pow2_pos((2 * k - j) as nat);
    assert(pow2(2 * k) == pow2(j) * pow2((2 * k - j) as nat));
    let c = (q * q) * (pow2((2 * k - j) as nat) as int);
    assert(d * d == pow2(j) * c) by (nonlinear_arith)
        requires
            d * d == (q * q) * (pow2(2 * k) as int),
            pow2(2 * k) == pow2(j) * pow2((2 * k - j) as nat),
            c == (q * q) * (pow2((2 * k - j) as nat) as int),
    ;

    // Reduce 1 - d^2 modulo 2^j: the multiple of 2^j vanishes.
    lemma_mod_multiples_vanish(-c, 1, pow2(j) as int);
    assert((pow2(j) * (-c) + 1) % (pow2(j) as int) == 1int % (pow2(j) as int));
    assert(pow2(j) * (-c) + 1 == 1 - d * d) by (nonlinear_arith)
        requires
            d * d == pow2(j) * c,
    ;
    lemma_small_mod(1, pow2(j));
    assert((1 - d * d) % (pow2(j) as int) == 1);

    // Equality modulo 2^64 implies equality modulo 2^j.
    lemma_pow2_adds(j, (64 - j) as nat);
    assert(pow2(j) * pow2((64 - j) as nat) == p);
    lemma_m64_is_mod(aa * x1);
    lemma_m64_is_mod(1 - d * d);
    lemma_mod_equivalence(aa * x1, 1 - d * d, p);
    assert((aa * x1 - (1 - d * d)) % p == 0);
    let w = (aa * x1 - (1 - d * d)) / p;
    lemma_fundamental_div_mod(aa * x1 - (1 - d * d), p);
    assert(aa * x1 == (1 - d * d) + p * w);
    assert(aa * x1 == (1 - d * d) + pow2(j) * (pow2((64 - j) as nat) * w)) by (nonlinear_arith)
        requires
            aa * x1 == (1 - d * d) + p * w,
            pow2(j) * pow2((64 - j) as nat) == p,
    ;
    lemma_mod_multiples_vanish(pow2((64 - j) as nat) * w, 1 - d * d, pow2(j) as int);
    assert((aa * x1) % (pow2(j) as int) == (1 - d * d) % (pow2(j) as int));
}

/// Computes the modular inverse of `a | 1` (mod 2^64).
///
/// Newton iteration in the ring of integers mod 2^64: the seed is
/// correct to 5 bits and each iteration doubles the number of correct
/// bits, so four iterations reach 5 * 2^4 = 80 > 64 bits.
pub fn modinverse(a: u64) -> (r: u64)
    ensures
        m64((a | 1) * r) == 1,
{
    // Make sure `a` is odd, otherwise there's no inverse.
    let a1 = a | 1;
    let mut x = a1.wrapping_mul(3) ^ 2;
    proof {
        assert(a1 & 1 == 1) by (bit_vector)
            requires
                a1 == a | 1,
        ;
        lemma_wrapping_ops_are_m64(a1, 3);
        lemma_m64_is_mod(a1 * 3);
        lemma_mod_mod(a1 * 3, 32, 0x0800_0000_0000_0000);
        assert(32 * 0x0800_0000_0000_0000 == two_64());
        assert((m64(a1 * 3) as int) % 32 == (a1 * 3) % 32);
        assert((m64(a1 * 3) * 1u64) % 32 == (a1 * 3u64) % 32);
        lemma_inverse_seed(a1, m64(a1 * 3), x, 1, 3);
        lemma2_to64();
        assert((a1 * x) % (pow2(5) as int) == 1);
    }
    // Repeat the Newton iteration 4 times, for 5 * 2^4 = 80 > 64 correct bits.
    let ghost x0 = x;
    x = x.wrapping_mul(2u64.wrapping_sub(a1.wrapping_mul(x)));
    proof {
        lemma_wrapping_ops_are_m64(a1, x0);
        lemma_wrapping_ops_are_m64(2, m64(a1 * x0));
        lemma_wrapping_ops_are_m64(x0, m64(2 - m64(a1 * x0)));
        lemma_newton_step(a1, x0, 5);
        assert((a1 * x) % (pow2(10) as int) == 1);
    }
    let ghost x1 = x;
    x = x.wrapping_mul(2u64.wrapping_sub(a1.wrapping_mul(x)));
    proof {
        lemma_wrapping_ops_are_m64(a1, x1);
        lemma_wrapping_ops_are_m64(2, m64(a1 * x1));
        lemma_wrapping_ops_are_m64(x1, m64(2 - m64(a1 * x1)));
        lemma_newton_step(a1, x1, 10);
        assert((a1 * x) % (pow2(20) as int) == 1);
    }
    let ghost x2 = x;
    x = x.wrapping_mul(2u64.wrapping_sub(a1.wrapping_mul(x)));
    proof {
        lemma_wrapping_ops_are_m64(a1, x2);
        lemma_wrapping_ops_are_m64(2, m64(a1 * x2));
        lemma_wrapping_ops_are_m64(x2, m64(2 - m64(a1 * x2)));
        lemma_newton_step(a1, x2, 20);
        assert((a1 * x) % (pow2(40) as int) == 1);
    }
    let ghost x3 = x;
    x = x.wrapping_mul(2u64.wrapping_sub(a1.wrapping_mul(x)));
    proof {
        lemma_wrapping_ops_are_m64(a1, x3);
        lemma_wrapping_ops_are_m64(2, m64(a1 * x3));
        lemma_wrapping_ops_are_m64(x3, m64(2 - m64(a1 * x3)));
        lemma_newton_step(a1, x3, 40);
        lemma2_to64();
        assert((a1 * x) % (pow2(64) as int) == 1);
    }
    x
}

/// XOR-ing twice with the same tag gives the original value back.
proof fn lemma_xor_cancel(x: u64, t: u64)
    by (bit_vector)
    ensures
        (x ^ t) ^ t == x,
{
}

/// Forcing the low bit twice is the same as forcing it once.
proof fn lemma_or1_idempotent(x: u64)
    by (bit_vector)
    ensures
        (x | 1) | 1 == x | 1,
{
}

/// Whether a parameter quadruple certifies every value: vouching any
/// 64-bit value and checking the voucher always succeeds.
pub open spec fn spec_params_valid(offset: u64, scale: u64, unoffset: u64, unscale: u64) -> bool {
    forall|v: u64| spec_check(unoffset, unscale, v, #[trigger] spec_vouch(offset, scale, v))
}

/// The relation between the seeds handed to `derive_parameters` and the
/// quadruple `(offset, scale, (unoffset, unscale))` it returns: the
/// de-tagged scale is the seed forced odd, the de-tagged unscale is its
/// negated inverse, and the offset makes the composed transform hit
/// `WANTED_SUM`.
pub open spec fn spec_derived(scale_seed: u64, unoffset: u64, r: (u64, u64, (u64, u64))) -> bool {
    let raw_scale = scale_seed | 1;
    let unscale_raw = r.2.1 ^ CHECKING_TAG;
    &&& r.1 == raw_scale ^ VOUCHING_TAG
    &&& r.2.0 == unoffset
    &&& m64(raw_scale * unscale_raw) == u64::MAX
    &&& r.0 == m64(unscale_raw * unoffset - WANTED_SUM)
}

/// The composition of the two affine maps at one value: when the two
/// multipliers multiply to -1 and the offset is chosen as the deriver
/// chooses it, checking a vouched value always succeeds.
pub proof fn lemma_affine_compose(offset: u64, scale: u64, unoffset: u64, unscale: u64, v: u64)
    requires
        m64(((scale ^ VOUCHING_TAG) as int) * ((unscale ^ CHECKING_TAG) as int)) == u64::MAX,
        offset == m64(((unscale ^ CHECKING_TAG) as int) * (unoffset as int) - WANTED_SUM),
    ensures
        spec_check(unoffset, unscale, v, spec_vouch(offset, scale, v)),
{
    let p = two_64();
    let a = (scale ^ VOUCHING_TAG) as int;
    let b = (unscale ^ CHECKING_TAG) as int;
    let vo = spec_vouch(offset, scale, v);
    let uo = unoffset as int;
    let vv = v as int;
    let off = offset as int;

    // The voucher is congruent to its unreduced form (v + offset) * a.
    lemma_m64_is_mod((vv + off) * a);
    lemma_m64_small(m64((vv + off) * a) as int);
    assert(m64(vo as int) == m64((vv + off) * a));
    lemma_m64_add_congruent(vo as int, (vv + off) * a, uo);
    lemma_m64_mul_congruent(vo + uo, (vv + off) * a + uo, b);
    lemma_m64_add_congruent((vo + uo) * b, ((vv + off) * a + uo) * b, vv);
    assert(m64((vo + uo) * b + vv) == m64(((vv + off) * a + uo) * b + vv));

    // Expand the composition: the slope collapses through a * b == -1.
    assert(((vv + off) * a + uo) * b + vv == (vv + off) * (a * b) + (uo * b + vv))
        by (nonlinear_arith);
    lemma_m64_small(p - 1);
    assert(m64(a * b) == m64(p - 1));
    lemma_m64_mul_congruent(a * b, p - 1, vv + off);
    lemma_mul_is_commutative(a * b, vv + off);
    lemma_mul_is_commutative(p - 1, vv + off);
    assert(m64((vv + off) * (a * b)) == m64((vv + off) * (p - 1)));
    lemma_m64_add_congruent((vv + off) * (a * b), (vv + off) * (p - 1), uo * b + vv);

    // The multiple of 2^64 vanishes, leaving unoffset * b - offset.
    assert((vv + off) * (p - 1) + (uo * b + vv) == p * (vv + off) + (uo * b - off));
    lemma_mod_multiples_vanish(vv + off, uo * b - off, p);
    lemma_m64_is_mod(p * (vv + off) + (uo * b - off));
    lemma_m64_is_mod(uo * b - off);
    assert(m64((vv + off) * (p - 1) + (uo * b + vv)) == m64(uo * b - off));

    // The deriver chose offset == b * unoffset - WANTED_SUM (mod 2^64).
    lemma_mul_is_commutative(uo, b);
    lemma_m64_sub_right(uo * b, b * uo - WANTED_SUM);
    lemma_m64_small(WANTED_SUM as int);
    assert(m64(uo * b - off) == WANTED_SUM);
    assert(m64((vo + uo) * b + vv) == WANTED_SUM);
}

/// Every quadruple the deriver returns certifies every 64-bit value:
/// vouch-then-check succeeds for all inputs, not only the sampled ones.
pub proof fn lemma_derived_params_valid(scale_seed: u64, unoffset: u64, r: (u64, u64, (u64, u64)))
    requires
        spec_derived(scale_seed, unoffset, r),
    ensures
        spec_params_valid(r.0, r.1, r.2.0, r.2.1),
{
    let raw_scale = scale_seed | 1;
    lemma_xor_cancel(raw_scale, VOUCHING_TAG);
    assert(r.1 ^ VOUCHING_TAG == raw_scale);
    assert forall|v: u64| spec_check(r.2.0, r.2.1, v, #[trigger] spec_vouch(r.0, r.1, v)) by {
        lemma_affine_compose(r.0, r.1, r.2.0, r.2.1, v);
    }
}

/// Checks that the vouching and checking parameters are valid.
///
/// Vouching and then checking is the composition of two affine
/// functions, so another affine function.  This means we only need to
/// check in two points to confirm that the composition is the expected
/// affine function: we want `check(vouch(x)) == WANTED_SUM - x`.
///
/// We check in 4 points, just to be clear.  The precondition rules out
/// invalid parameters, for which the original checks would fault.
#[inline(never)]  // make the function show up in profiles if it's an issue.
pub fn check_parameters_or_die(offset: u64, scale: u64, checking: (u64, u64))
    requires
        spec_params_valid(offset, scale, checking.0, checking.1),
{
    // Each call to `vouch` internally checks that the voucher is correct.
    vouch(offset, scale, checking, 0);
    vouch(offset, scale, checking, 1);
    vouch(offset, scale, checking, 2);
    // and a "random" point.
    vouch(offset, scale, checking, 0x110d2ae90b38f555u64);
}

/// Given `scale`, the multiplier for the vouching step, and `unoffset`,
/// the addend for the checking step, computes matching vouching and
/// checking parameters.
///
/// Returns `(offset, scale, (unoffset, unscale))`, with the vouching
/// and checking tags applied.
#[inline(never)]
pub fn derive_parameters(scale: u64, unoffset: u64) -> (r: (u64, u64, (u64, u64)))
    ensures
        spec_derived(scale, unoffset, r),
        spec_params_valid(r.0, r.1, r.2.0, r.2.1),
{
    let raw_scale = scale | 1;  // scale must be odd
    let inv = modinverse(raw_scale);
    let unscale_raw = 0u64.wrapping_sub(inv);  // raw_scale * unscale_raw == -1

    // We want
    //    x + unscale * ([scale * (x + offset)] + unoffset)           == WANTED_SUM
    // == x + (unscale * scale) * (x + offset) + (unscale * unoffset)
    // == x - x - offset + (unscale * unoffset)
    // == -offset + (unscale * unoffset)
    //
    // offset = (unscale * unoffset) - WANTED_SUM
    let offset = unscale_raw.wrapping_mul(unoffset).wrapping_sub(WANTED_SUM);

    // Apply the tags.
    let scale_tagged = raw_scale ^ VOUCHING_TAG;
    let unscale_tagged = unscale_raw ^ CHECKING_TAG;

    proof {
        let p = two_64();
        lemma_or1_idempotent(scale);
        assert(m64(raw_scale * inv) == 1);
        lemma_xor_cancel(unscale_raw, CHECKING_TAG);
        lemma_xor_cancel(raw_scale, VOUCHING_TAG);

        // unscale_raw is congruent to -inv, so raw_scale * unscale_raw
        // is congruent to -(raw_scale * inv) == -1.
        lemma_wrapping_ops_are_m64(0, inv);
        lemma_m64_is_mod(-(inv as int));
        lemma_m64_small(m64(-(inv as int)) as int);
        assert(m64(unscale_raw as int) == m64(-(inv as int)));
        lemma_m64_mul_congruent(unscale_raw as int, -(inv as int), raw_scale as int);
        lemma_mul_unary_negation(inv as int, raw_scale as int);
        lemma_mul_is_commutative(inv as int, raw_scale as int);
        lemma_m64_small(1);
        assert(m64(inv * raw_scale) == m64(1));
        lemma_m64_neg_congruent(inv * raw_scale, 1);
        lemma_m64_equivalence(-1, p - 1);
        lemma_mod_multiples_basic(-1, p);
        lemma_m64_small(p - 1);
        assert(m64(-1) == u64::MAX);
        lemma_mul_is_commutative(unscale_raw as int, raw_scale as int);
        assert(m64(raw_scale * unscale_raw) == u64::MAX);

        // The offset is the single reduction of the exact integer value.
        lemma_wrapping_ops_are_m64(unscale_raw, unoffset);
        lemma_wrapping_ops_are_m64(m64(unscale_raw * unoffset), WANTED_SUM);
        lemma_m64_sub_left(unscale_raw * unoffset, WANTED_SUM as int);
        assert(offset == m64(unscale_raw * unoffset - WANTED_SUM));

        assert(spec_derived(scale, unoffset, (offset, scale_tagged, (unoffset, unscale_tagged))));
        lemma_derived_params_valid(
            scale,
            unoffset,
            (offset, scale_tagged, (unoffset, unscale_tagged)),
        );
    }
    check_parameters_or_die(offset, scale_tagged, (unoffset, unscale_tagged));
    (offset, scale_tagged, (unoffset, unscale_tagged))
}

/// Checking a vouched value succeeds exactly when the fully unreduced
/// integer composition of the two affine maps reduces to `WANTED_SUM`.
pub proof fn lemma_compose_unreduced(oo: u64, usl: u64, x: u64, off2: u64, sc2: u64)
    ensures
        spec_check(oo, usl, x, spec_vouch(off2, sc2, x)) <==> m64(
            ((x + off2) * ((sc2 ^ VOUCHING_TAG) as int) + oo) * ((usl ^ CHECKING_TAG) as int) + x,
        ) == WANTED_SUM,
{
    let a = (sc2 ^ VOUCHING_TAG) as int;
    let b = (usl ^ CHECKING_TAG) as int;
    let v = spec_vouch(off2, sc2, x);
    let xx = x as int;
    let off = off2 as int;
    lemma_m64_is_mod((xx + off) * a);
    lemma_m64_small(m64((xx + off) * a) as int);
    assert(m64(v as int) == m64((xx + off) * a));
    lemma_m64_add_congruent(v as int, (xx + off) * a, oo as int);
    lemma_m64_mul_congruent(v + oo, (xx + off) * a + oo, b);
    lemma_m64_add_congruent((v + oo) * b, ((xx + off) * a + oo) * b, xx);
    assert(m64((v + oo) * b + xx) == m64(((xx + off) * a + oo) * b + xx));
}

/// Low-bit arithmetic of the applied tags: with an odd de-tagged
/// unscale, moving the stored unscale into the vouching slot leaves an
/// even multiplier after the vouching de-tag.
proof fn lemma_swapped_multiplier_even(us: u64, av: u64)
    by (bit_vector)
    requires
        us & 1 == 1,
        av == (us ^ 0x676e696b63656843u64) ^ 0x676e696863756f56u64,
    ensures
        av & 1 == 0,
{
}

/// The de-tagged unscale of a derived quadruple is odd.
proof fn lemma_derived_unscale_odd(scale_seed: u64, unoffset: u64, r: (u64, u64, (u64, u64)))
    requires
        spec_derived(scale_seed, unoffset, r),
    ensures
        ((r.2.1 ^ CHECKING_TAG) as int) % 2 == 1,
{
    let p = two_64();
    let h = 0x8000_0000_0000_0000int;
    let raw = (scale_seed | 1) as int;
    let us = (r.2.1 ^ CHECKING_TAG) as int;
    let z = raw * us;
    lemma_m64_is_mod(z);
    lemma_fundamental_div_mod(z, p);
    let q = z / p;
    assert(z == p * q + (u64::MAX as int));
    lemma_mod_multiples_basic(h * q, 2);
    assert(p * q == (h * q) * 2);
    assert((p * q) % 2 == 0);
    lemma_add_mod_noop(p * q, u64::MAX as int, 2);
    assert(z % 2 == 1);
    if us % 2 == 0 {
        lemma_mul_mod_noop_left(us, raw, 2);
        assert((us * raw) % 2 == 0);
        lemma_mul_is_commutative(us, raw);
        assert(false);
    }
    lemma_mod_bound(us, 2);
}

/// Swapping the roles of the derived vouching and checking fields,
/// without re-XOR-ing the tags, makes the self-check fail: the composed
/// map cannot match at both 0 and 1, because the vouching de-tag of the
/// stored unscale yields an even multiplier.
pub proof fn lemma_swapped_params_fail(scale_seed: u64, unoffset: u64, r: (u64, u64, (u64, u64)))
    requires
        spec_derived(scale_seed, unoffset, r),
    ensures
        !(spec_check(r.0, r.1, 0, spec_vouch(r.2.0, r.2.1, 0)) && spec_check(
            r.0,
            r.1,
            1,
            spec_vouch(r.2.0, r.2.1, 1),
        )),
{
    let p = two_64();
    let h = 0x8000_0000_0000_0000int;
    let us = r.2.1 ^ CHECKING_TAG;
    let av = (r.2.1 ^ VOUCHING_TAG) as int;
    let bv = (r.1 ^ CHECKING_TAG) as int;
    let uo = r.2.0 as int;
    let off = r.0 as int;

    lemma_derived_unscale_odd(scale_seed, unoffset, r);
    lemma_u64_low_bits_mask_is_mod(us, 1);
    lemma_u64_low_bits_mask_is_mod(r.2.1 ^ VOUCHING_TAG, 1);
    lemma_low_bits_mask_values();
    lemma2_to64();
    assert(us & 1 == 1);
    lemma_xor_cancel(r.2.1, CHECKING_TAG);
    lemma_swapped_multiplier_even(us, (us ^ CHECKING_TAG) ^ VOUCHING_TAG);
    assert((us ^ CHECKING_TAG) ^ VOUCHING_TAG == r.2.1 ^ VOUCHING_TAG);
    assert(av % 2 == 0);

    lemma_compose_unreduced(r.0, r.1, 0, r.2.0, r.2.1);
    lemma_compose_unreduced(r.0, r.1, 1, r.2.0, r.2.1);
    if spec_check(r.0, r.1, 0, spec_vouch(r.2.0, r.2.1, 0)) && spec_check(
        r.0,
        r.1,
        1,
        spec_vouch(r.2.0, r.2.1, 1),
    ) {
        let f0 = ((0 + uo) * av + off) * bv + 0;
        let f1 = ((1 + uo) * av + off) * bv + 1;
        assert(m64(f0) == WANTED_SUM && m64(f1) == WANTED_SUM);
        lemma_m64_equivalence(f1, f0);
        assert((f1 - f0) % p == 0);
        assert(f1 - f0 == av * bv + 1) by (nonlinear_arith)
            requires
                f0 == ((0 + uo) * av + off) * bv + 0,
                f1 == ((1 + uo) * av + off) * bv + 1,
        ;
        lemma_fundamental_div_mod(av * bv + 1, p);
        let q = (av * bv + 1) / p;
        assert(av * bv + 1 == p * q);
        lemma_mod_multiples_basic(h * q, 2);
        assert(p * q == (h * q) * 2);
        assert((av * bv + 1) % 2 == 0);
        lemma_mul_mod_noop_left(av, bv, 2);
        assert((av * bv) % 2 == 0);
        lemma_add_mod_noop(av * bv, 1, 2);
        assert((av * bv + 1) % 2 == 1);
        assert(false);
    }
}

/// Swapping the roles of the derived vouching and checking fields and
/// re-XOR-ing both tags makes the composed map a constant; the
/// self-check then fails at every value, for every seed pair whose
/// constant misses `WANTED_SUM` (which the precondition states).
pub proof fn lemma_swapped_retagged_params_fail(
    scale_seed: u64,
    unoffset: u64,
    r: (u64, u64, (u64, u64)),
    x: u64,
)
    requires
        spec_derived(scale_seed, unoffset, r),
        m64(WANTED_SUM * (((scale_seed | 1) + 1) as int) + 2 * unoffset) != 0,
    ensures
        !spec_check(
            r.0,
            (r.1 ^ VOUCHING_TAG) ^ CHECKING_TAG,
            x,
            spec_vouch(r.2.0, (r.2.1 ^ VOUCHING_TAG) ^ CHECKING_TAG, x),
        ),
{
    let p = two_64();
    let raw = (scale_seed | 1) as int;
    let us = (r.2.1 ^ CHECKING_TAG) as int;
    let uo = r.2.0 as int;
    let off = r.0 as int;
    let xx = x as int;

    // After the re-tag, the two de-tags recover the raw multipliers.
    lemma_xor_cancel(r.2.1, VOUCHING_TAG);
    lemma_xor_cancel(r.1, VOUCHING_TAG);
    lemma_xor_cancel(scale_seed | 1, VOUCHING_TAG);
    lemma_xor_swap_detag(r.2.1, r.1);
    assert((((r.2.1 ^ VOUCHING_TAG) ^ CHECKING_TAG) ^ VOUCHING_TAG) == r.2.1 ^ CHECKING_TAG);
    assert((((r.1 ^ VOUCHING_TAG) ^ CHECKING_TAG) ^ CHECKING_TAG) == r.1 ^ VOUCHING_TAG);
    assert(r.1 ^ VOUCHING_TAG == scale_seed | 1);

    lemma_compose_unreduced(
        r.0,
        (r.1 ^ VOUCHING_TAG) ^ CHECKING_TAG,
        x,
        r.2.0,
        (r.2.1 ^ VOUCHING_TAG) ^ CHECKING_TAG,
    );
    let f = ((xx + uo) * us + off) * raw + xx;

    // Expand: the slope collapses through us * raw == -1, leaving the
    // constant offset * raw - unoffset.
    assert(f == (xx + uo) * (us * raw) + (off * raw + xx)) by (nonlinear_arith)
        requires
            f == ((xx + uo) * us + off) * raw + xx,
    ;
    lemma_mul_is_commutative(raw, us);
    lemma_m64_small(p - 1);
    assert(m64(us * raw) == m64(p - 1));
    lemma_m64_mul_congruent(us * raw, p - 1, xx + uo);
    lemma_mul_is_commutative(us * raw, xx + uo);
    lemma_mul_is_commutative(p - 1, xx + uo);
    assert(m64((xx + uo) * (us * raw)) == m64((xx + uo) * (p - 1)));
    lemma_m64_add_congruent((xx + uo) * (us * raw), (xx + uo) * (p - 1), off * raw + xx);
    assert((xx + uo) * (p - 1) + (off * raw + xx) == p * (xx + uo) + (off * raw - uo));
    lemma_mod_multiples_vanish(xx + uo, off * raw - uo, p);
    lemma_m64_is_mod(p * (xx + uo) + (off * raw - uo));
    lemma_m64_is_mod(off * raw - uo);
    assert(m64(f) == m64(off * raw - uo));

    // Substitute the derived offset: the constant is
    // -(WANTED_SUM * raw + 2 * unoffset) modulo 2^64.
    lemma_m64_is_mod(us * uo - WANTED_SUM);
    lemma_m64_small(m64(us * uo - WANTED_SUM) as int);
    assert(m64(off) == m64(us * uo - WANTED_SUM));
    lemma_m64_mul_congruent(off, us * uo - WANTED_SUM, raw);
    lemma_m64_add_congruent(off * raw, (us * uo - WANTED_SUM) * raw, -uo);
    assert(m64(off * raw - uo) == m64((us * uo - WANTED_SUM) * raw - uo));
    assert((us * uo - WANTED_SUM) * raw - uo == uo * (us * raw) + (-(WANTED_SUM * raw) - uo))
        by (nonlinear_arith);
    lemma_m64_mul_congruent(us * raw, p - 1, uo);
    lemma_mul_is_commutative(us * raw, uo);
    lemma_mul_is_commutative(p - 1, uo);
    assert(m64(uo * (us * raw)) == m64(uo * (p - 1)));
    lemma_m64_add_congruent(uo * (us * raw), uo * (p - 1), -(WANTED_SUM * raw) - uo);
    assert(uo * (p - 1) + (-(WANTED_SUM * raw) - uo) == p * uo + (-(WANTED_SUM * raw) - 2 * uo));
    lemma_mod_multiples_vanish(uo, -(WANTED_SUM * raw) - 2 * uo, p);
    lemma_m64_is_mod(p * uo + (-(WANTED_SUM * raw) - 2 * uo));
    lemma_m64_is_mod(-(WANTED_SUM * raw) - 2 * uo);
    assert(m64(f) == m64(-(WANTED_SUM * raw) - 2 * uo));

    // If the check passed, the excluded constant would reduce to zero.
    if m64(f) == WANTED_SUM {
        lemma_m64_small(WANTED_SUM as int);
        lemma_m64_neg_congruent(-(WANTED_SUM * raw) - 2 * uo, WANTED_SUM as int);
        assert(m64(WANTED_SUM * raw + 2 * uo) == m64(-(WANTED_SUM as int)));
        lemma_m64_add_congruent(
            WANTED_SUM * raw + 2 * uo,
            -(WANTED_SUM as int),
            WANTED_SUM as int,
        );
        lemma_m64_small(0);
        assert(m64(WANTED_SUM * raw + 2 * uo + WANTED_SUM) == 0);
        assert(WANTED_SUM * raw + 2 * uo + WANTED_SUM == WANTED_SUM * (raw + 1) + 2 * uo);
        assert(m64(WANTED_SUM * (((scale_seed | 1) + 1) as int) + 2 * unoffset) == 0);
        assert(false);
    }
}

/// The two re-tagged stored fields de-tag back to the raw multipliers.
proof fn lemma_xor_swap_detag(w1: u64, w2: u64)
    by (bit_vector)
    ensures
        (((w1 ^ 0x676e696863756f56u64) ^ 0x676e696b63656843u64) ^ 0x676e696863756f56u64) == w1
            ^ 0x676e696b63656843u64,
        (((w2 ^ 0x676e696863756f56u64) ^ 0x676e696b63656843u64) ^ 0x676e696b63656843u64) == w2
            ^ 0x676e696863756f56u64,
{
}

} // verus!
