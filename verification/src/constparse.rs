//! Byte-level helpers: reading an 8-byte ASCII name as a little-endian
//! integer, and parsing fixed-width big-endian hexadecimal fields.

use vstd::prelude::*;
use vstd::arithmetic::div_mod::lemma_basic_div;
use vstd::arithmetic::div_mod::lemma_div_denominator;
use vstd::arithmetic::div_mod::lemma_div_pos_is_pos;
use vstd::arithmetic::div_mod::lemma_fundamental_div_mod;
use vstd::arithmetic::div_mod::lemma_mod_bound;
use vstd::arithmetic::power2::pow2;
use vstd::arithmetic::power2::lemma_pow2_adds;
use vstd::arithmetic::power2::lemma_pow2_pos;
use vstd::arithmetic::power2::lemma2_to64;
use vstd::bits::lemma_u64_shr_is_div;
use vstd::bits::lemma_u64_low_bits_mask_is_mod;
use vstd::bits::lemma_low_bits_mask_values;

verus! {

/// Whether `b` is an ASCII hexadecimal digit (`0-9`, `a-f` or `A-F`).
pub open spec fn is_hex_digit(b: u8) -> bool {
    (0x30 <= b && b <= 0x39) || (0x61 <= b && b <= 0x66) || (0x41 <= b && b <= 0x46)
}

/// The numeric value of the ASCII hexadecimal digit `b`.
pub open spec fn hex_digit_value(b: u8) -> int
    recommends
        is_hex_digit(b),
{
    if 0x30 <= b && b <= 0x39 {
        b - 0x30
    } else if 0x61 <= b && b <= 0x66 {
        b - 0x61 + 10
    } else {
        b - 0x41 + 10
    }
}

/// 16 raised to the power `n`.
pub open spec fn pow16(n: nat) -> int
    decreases n,
{
    if n == 0 {
        1
    } else {
        16 * pow16((n - 1) as nat)
    }
}

/// The value of the `n` big-endian hexadecimal digits of `s` starting at
/// `base`.
pub open spec fn hex_prefix_value(s: Seq<u8>, base: int, n: int) -> int
    decreases n,
{
    if n <= 0 {
        0
    } else {
        hex_prefix_value(s, base, n - 1) * 16 + hex_digit_value(s[base + n - 1])
    }
}

/// Whether the `n` bytes of `s` starting at `base` are all hexadecimal
/// digits.
pub open spec fn all_hex(s: Seq<u8>, base: int, n: int) -> bool {
    forall|i: int| 0 <= i < n ==> #[trigger] is_hex_digit(s[base + i])
}

/// What `parse_hex` returns: the value of the 16 big-endian hexadecimal
/// digits of `s` starting at `base`, or `None` if fewer than 16 bytes
/// follow `base` or any of them is not a hexadecimal digit.
pub open spec fn spec_parse_hex(s: Seq<u8>, base: int) -> Option<u64> {
    if 0 <= base && base + 16 <= s.len() && all_hex(s, base, 16) {
        Some(hex_prefix_value(s, base, 16) as u64)
    } else {
        None
    }
}

/// `pow16` is monotonic.
pub proof fn lemma_pow16_increases(m: nat, n: nat)
    requires
        m <= n,
    ensures
        pow16(m) <= pow16(n),
    decreases n,
{
    if m < n {
        lemma_pow16_increases(m, (n - 1) as nat);
        lemma_pow16_positive((n - 1) as nat);
    }
}

/// `pow16` is positive.
pub proof fn lemma_pow16_positive(n: nat)
    ensures
        pow16(n) >= 1,
    decreases n,
{
    if n > 0 {
        lemma_pow16_positive((n - 1) as nat);
    }
}

/// `pow16(16)` is exactly 2^64.
pub proof fn lemma_pow16_16()
    ensures
        pow16(16) == 0x1_0000_0000_0000_0000,
{
    assert(pow16(16) == 0x1_0000_0000_0000_0000) by {
        reveal_with_fuel(pow16, 17);
    }
}

/// A run of hexadecimal digits has a value below `pow16` of its length.
pub proof fn lemma_hex_prefix_value_bound(s: Seq<u8>, base: int, n: int)
    requires
        0 <= n,
        all_hex(s, base, n),
    ensures
        0 <= hex_prefix_value(s, base, n) < pow16(n as nat),
    decreases n,
{
    if n > 0 {
        let j = n - 1;
        assert(is_hex_digit(s[base + j]));
        lemma_hex_prefix_value_bound(s, base, n - 1);
    }
}

/// Interprets the 8 bytes of `s` as a little-endian 64-bit integer.
pub open spec fn spec_le_u64(s: Seq<u8>) -> int
    recommends
        s.len() == 8,
{
    s[0] + s[1] * 0x100 + s[2] * 0x1_0000 + s[3] * 0x100_0000 + s[4] * 0x1_0000_0000 + s[5]
        * 0x100_0000_0000 + s[6] * 0x1_0000_0000_0000 + s[7] * 0x100_0000_0000_0000
}

/// Interprets the 8 bytes of `name` as a little-endian u64, which the
/// caller must already know equals `expected`; the provenance constants
/// of this crate are documented by their ASCII names this way.
pub fn named_u64(name: &[u8; 8], expected: u64) -> (r: u64)
    requires
        spec_le_u64(name@) == expected,
    ensures
        r == expected,
        r == spec_le_u64(name@),
{
    name[0] as u64 + (name[1] as u64) * 0x100 + (name[2] as u64) * 0x1_0000 + (name[3] as u64)
        * 0x100_0000 + (name[4] as u64) * 0x1_0000_0000 + (name[5] as u64) * 0x100_0000_0000 + (
    name[6] as u64) * 0x1_0000_0000_0000 + (name[7] as u64) * 0x100_0000_0000_0000
}

/// Parses 16 bytes of ASCII big-endian hexadecimal starting at offset
/// `base` of `bytes` into a u64 value.
///
/// The bounds are checked against the whole of `bytes`, so a field may be
/// decoded at an offset inside a larger buffer.  Returns `None` when the
/// buffer is too short or a byte is not a hexadecimal digit.
pub fn parse_hex(bytes: &[u8], base: usize) -> (r: Option<u64>)
    ensures
        r == spec_parse_hex(bytes@, base as int),
{
    if bytes.len() < 16 || base > bytes.len() - 16 {
        return None;
    }
    let mut acc: u64 = 0;
    let mut i: usize = 0;
    while i < 16
        invariant
            0 <= i <= 16,
            base + 16 <= bytes@.len(),
            bytes@.len() <= usize::MAX,
            all_hex(bytes@, base as int, i as int),
            acc == hex_prefix_value(bytes@, base as int, i as int),
            acc < pow16(i as nat),
        decreases 16 - i,
    {
        let b = bytes[base + i];
        let d: u64;
        if 0x30 <= b && b <= 0x39 {
            d = (b - 0x30) as u64;
        } else if 0x61 <= b && b <= 0x66 {
            d = (b - 0x61) as u64 + 10;
        } else if 0x41 <= b && b <= 0x46 {
            d = (b - 0x41) as u64 + 10;
        } else {
            proof {
                assert(!is_hex_digit(bytes@[base + i]));
                assert(!all_hex(bytes@, base as int, 16));
            }
            return None;
        }
        proof {
            assert(d == hex_digit_value(bytes@[base + i]));
            lemma_pow16_increases((i + 1) as nat, 16);
            lemma_pow16_16();
            assert(acc * 16 + d < pow16((i + 1) as nat));
        }
        acc = acc * 16 + d;
        i = i + 1;
    }
    proof {
        lemma_pow16_16();
        lemma_hex_prefix_value_bound(bytes@, base as int, 16);
    }
    Some(acc)
}

/// The `i`-th big-endian hexadecimal digit of `v`, counting from the most
/// significant of its 16 nibbles.
pub open spec fn nib64(v: u64, i: int) -> int
    recommends
        0 <= i < 16,
{
    (v as int / pow2((4 * (15 - i)) as nat) as int) % 16
}

/// The lowercase ASCII hexadecimal digit for the value `d`.
pub open spec fn hex_char_of(d: int) -> u8
    recommends
        0 <= d < 16,
{
    if d < 10 {
        (0x30 + d) as u8
    } else {
        (0x57 + d) as u8
    }
}

/// The 16 lowercase big-endian hexadecimal digits of `v`, zero-padded.
pub open spec fn spec_hex16(v: u64) -> Seq<u8> {
    Seq::new(16, |i: int| hex_char_of(nib64(v, i)))
}

/// Each nibble value is a single hexadecimal digit.
pub proof fn lemma_nib64_bound(v: u64, i: int)
    requires
        0 <= i < 16,
    ensures
        0 <= nib64(v, i) < 16,
{
    lemma_pow2_pos((4 * (15 - i)) as nat);
    lemma_div_pos_is_pos(v as int, pow2((4 * (15 - i)) as nat) as int);
    lemma_mod_bound(v as int / pow2((4 * (15 - i)) as nat) as int, 16);
}

/// The lowercase digit of a nibble value parses back to that value.
pub proof fn lemma_hex_char_value(d: int)
    requires
        0 <= d < 16,
    ensures
        is_hex_digit(hex_char_of(d)),
        hex_digit_value(hex_char_of(d)) == d,
{
}

/// The first `n` digits emitted for `v` carry the high `4 * n` bits of `v`.
proof fn lemma_hex_prefix_of_nibbles(s: Seq<u8>, base: int, v: u64, n: int)
    requires
        0 <= n <= 16,
        0 <= base,
        base + 16 <= s.len(),
        forall|i: int| 0 <= i < 16 ==> s[base + i] == #[trigger] spec_hex16(v)[i],
    ensures
        hex_prefix_value(s, base, n) == v as int / pow2((4 * (16 - n)) as nat) as int,
    decreases n,
{
    lemma2_to64();
    if n == 0 {
        lemma_basic_div(v as int, pow2(64) as int);
    } else {
        lemma_hex_prefix_of_nibbles(s, base, v, n - 1);
        let j = n - 1;
        assert(s[base + j] == spec_hex16(v)[j]);
        lemma_nib64_bound(v, j);
        lemma_hex_char_value(nib64(v, j));
        let sh = (4 * (16 - n)) as nat;
        let w = v as int / pow2(sh) as int;
        lemma_pow2_adds(sh, 4);
        lemma_pow2_pos(sh);
        lemma_div_denominator(v as int, pow2(sh) as int, 16);
        lemma_fundamental_div_mod(w, 16);
        assert(nib64(v, j) == w % 16);
        assert(hex_prefix_value(s, base, n - 1) == w / 16);
        assert(hex_prefix_value(s, base, n) == (w / 16) * 16 + w % 16);
    }
}

/// Sixteen digits emitted by `spec_hex16`, standing at offset `base` of a
/// longer buffer, parse back to the value they were emitted from.
pub proof fn lemma_parse_hex_of_hex16(s: Seq<u8>, base: int, v: u64)
    requires
        0 <= base,
        base + 16 <= s.len(),
        forall|i: int| 0 <= i < 16 ==> s[base + i] == #[trigger] spec_hex16(v)[i],
    ensures
        spec_parse_hex(s, base) == Some(v),
{
    assert forall|i: int| 0 <= i < 16 implies #[trigger] is_hex_digit(s[base + i]) by {
        assert(s[base + i] == spec_hex16(v)[i]);
        assert(spec_hex16(v)[i] == hex_char_of(nib64(v, i)));
        lemma_nib64_bound(v, i);
        lemma_hex_char_value(nib64(v, i));
    }
    assert(all_hex(s, base, 16));
    lemma_hex_prefix_of_nibbles(s, base, v, 16);
    lemma2_to64();
    assert(hex_prefix_value(s, base, 16) == v as int / 1);
}

/// Appends the 16 lowercase big-endian hexadecimal digits of `v` to `out`.
pub fn push_hex16(v: u64, out: &mut Vec<u8>)
    ensures
        final(out)@ == old(out)@ + spec_hex16(v),
{
    let mut i: usize = 0;
    while i < 16
        invariant
            0 <= i <= 16,
            out@ == old(out)@ + spec_hex16(v).subrange(0, i as int),
        decreases 16 - i,
    {
        let sh: u64 = 60 - 4 * (i as u64);
        let d: u64 = (v >> sh) & 0xf;
        proof {
            lemma_u64_shr_is_div(v, sh);
            lemma_u64_low_bits_mask_is_mod(v >> sh, 4);
            lemma_low_bits_mask_values();
            lemma2_to64();
            assert(d == nib64(v, i as int));
            lemma_nib64_bound(v, i as int);
        }
        let byte: u8 = if d < 10 {
            (0x30 + d) as u8
        } else {
            (0x57 + d) as u8
        };
        proof {
            assert(byte == spec_hex16(v)[i as int]);
        }
        out.push(byte);
        proof {
            assert(spec_hex16(v).subrange(0, i + 1) =~= spec_hex16(v).subrange(0, i as int).push(
                byte,
            ));
            assert(out@ =~= old(out)@ + spec_hex16(v).subrange(0, i + 1));
        }
        i = i + 1;
    }
    proof {
        assert(spec_hex16(v).subrange(0, 16) =~= spec_hex16(v));
    }
}

} // verus!
