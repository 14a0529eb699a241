//! The voucher checking transform and the serialized form of checking
//! parameters.

use vstd::prelude::*;
use crate::modmath::m64;
use crate::modmath::lemma_m64_add_left;
use crate::modmath::lemma_m64_mul_left;
use crate::modmath::lemma_wrapping_ops_are_m64;
use crate::constparse::parse_hex;
use crate::constparse::push_hex16;
use crate::constparse::spec_hex16;
use crate::constparse::spec_parse_hex;
use crate::constparse::lemma_parse_hex_of_hex16;

verus! {

/// The vouching and checking transforms compose so that
/// `x + check_transform(vouch_transform(x)) == WANTED_SUM` (mod 2^64).
/// The constant is the ASCII string `Vouch!OK` read as a little-endian
/// integer.
pub const WANTED_SUM: u64 = 0x4b4f216863756f56;

/// The checking multiplier is stored XOR-ed with this tag: the ASCII
/// string `Checking` read as a little-endian integer.
pub const CHECKING_TAG: u64 = 0x676e696b63656843;

/// The exact length of serialized checking parameters.
pub const REPRESENTATION_BYTE_COUNT: usize = 39;

/// What `check` decides: whether `voucher` unvouches back to `expected`,
/// i.e. `(voucher + unoffset) * (unscale ^ CHECKING_TAG) + expected`
/// equals `WANTED_SUM` in the ring of integers modulo 2^64.
pub open spec fn spec_check(unoffset: u64, unscale: u64, expected: u64, voucher: u64) -> bool {
    m64((voucher + unoffset) * ((unscale ^ CHECKING_TAG) as int) + expected) == WANTED_SUM
}

/// Determines whether the `voucher` value was generated for `expected`,
/// and with vouching parameters that correspond to the checking
/// parameters `unoffset` and `unscale`.
///
/// Returns true on match, and false on mismatch.  Total; never faults.
pub fn check(unoffset: u64, unscale: u64, expected: u64, voucher: u64) -> (r: bool)
    ensures
        r == spec_check(unoffset, unscale, expected, voucher),
{
    let unvouched_value = voucher.wrapping_add(unoffset).wrapping_mul(unscale ^ CHECKING_TAG);
    proof {
        let det = (unscale ^ CHECKING_TAG) as int;
        lemma_wrapping_ops_are_m64(voucher, unoffset);
        lemma_wrapping_ops_are_m64(m64(voucher + unoffset), unscale ^ CHECKING_TAG);
        lemma_m64_mul_left(voucher + unoffset, det);
        lemma_wrapping_ops_are_m64(m64((voucher + unoffset) * det), expected);
        lemma_m64_add_left((voucher + unoffset) * det, expected as int);
    }
    unvouched_value.wrapping_add(expected) == WANTED_SUM
}

/// The six-byte prefix `CHECK-` of serialized checking parameters.
pub open spec fn spec_checking_prefix_ok(s: Seq<u8>) -> bool {
    &&& s[0] == 0x43
    &&& s[1] == 0x48
    &&& s[2] == 0x45
    &&& s[3] == 0x43
    &&& s[4] == 0x4b
    &&& s[5] == 0x2d
}

/// Structural validity of serialized checking parameters: exactly 39
/// bytes laid out as `CHECK-`, 16 hex digits of `unoffset`, `-`, and 16
/// hex digits of `unscale`.
pub open spec fn spec_checking_wf(s: Seq<u8>) -> bool {
    &&& s.len() == 39
    &&& spec_checking_prefix_ok(s)
    &&& spec_parse_hex(s, 6) is Some
    &&& s[22] == 0x2d
    &&& spec_parse_hex(s, 23) is Some
}

/// What `parse_bytes` accepts: the decoded `(unoffset, unscale)` pair of
/// a structurally valid serialization, and `None` for every other input.
pub open spec fn spec_parse_checking(s: Seq<u8>) -> Option<(u64, u64)> {
    if spec_checking_wf(s) {
        match (spec_parse_hex(s, 6), spec_parse_hex(s, 23)) {
            (Some(unoffset), Some(unscale)) => Some((unoffset, unscale)),
            _ => None,
        }
    } else {
        None
    }
}

/// Parses the `bytes` as the serialised ASCII representation of checking
/// parameters.
///
/// Returns a pair of `(unoffset, unscale)` on success or a failure reason
/// string.  Each structural defect is reported by its own message, in
/// the order length, prefix, first hex field, separator, second hex
/// field.
pub fn parse_bytes(bytes: &[u8]) -> (r: Result<(u64, u64), &'static str>)
    ensures
        r is Ok <==> spec_parse_checking(bytes@) is Some,
        r matches Ok(p) ==> spec_parse_checking(bytes@) == Some(p),
        bytes@.len() < 39 ==> (r matches Err(m) && m@
            == "Too few bytes in serialized raffle::CheckingParameters"@),
        bytes@.len() > 39 ==> (r matches Err(m) && m@
            == "Too many bytes in serialized raffle::CheckingParameters"@),
        bytes@.len() == 39 && !spec_checking_prefix_ok(bytes@) ==> (r matches Err(m) && m@
            == "Incorrect prefix for raffle::CheckingParameters. Expected CHECK-"@),
        bytes@.len() == 39 && spec_checking_prefix_ok(bytes@) && spec_parse_hex(bytes@, 6)
            is None ==> (r matches Err(m) && m@
            == "Failed to parse hex unoffset in raffle::CheckingParameters."@),
        bytes@.len() == 39 && spec_checking_prefix_ok(bytes@) && spec_parse_hex(bytes@, 6)
            is Some && bytes@[22] != 0x2d ==> (r matches Err(m) && m@
            == "Missing dash separator after unoffset in raffle::CheckingParameters"@),
        bytes@.len() == 39 && spec_checking_prefix_ok(bytes@) && spec_parse_hex(bytes@, 6)
            is Some && bytes@[22] == 0x2d && spec_parse_hex(bytes@, 23) is None ==> (r matches Err(
        m) && m@ == "Failed to parse hex uscale in raffle::CheckingParameters."@),
{
    // Expected length:
    //  "CHECK-"     [ 0,  6)
    //  hex unoffset [ 6, 22)
    //  "-"          [22, 23)
    //  hex unscale  [23, 39)
    if bytes.len() < REPRESENTATION_BYTE_COUNT {
        return Err("Too few bytes in serialized raffle::CheckingParameters");
    }
    if bytes.len() > REPRESENTATION_BYTE_COUNT {
        return Err("Too many bytes in serialized raffle::CheckingParameters");
    }
    if bytes[0] != 0x43 || bytes[1] != 0x48 || bytes[2] != 0x45 || bytes[3] != 0x43 || bytes[4]
        != 0x4b || bytes[5] != 0x2d {
        return Err("Incorrect prefix for raffle::CheckingParameters. Expected CHECK-");
    }
    let unoffset = match parse_hex(bytes, 6) {
        Some(v) => v,
        None => {
            return Err("Failed to parse hex unoffset in raffle::CheckingParameters.");
        },
    };
    if bytes[22] != 0x2d {
        return Err("Missing dash separator after unoffset in raffle::CheckingParameters");
    }
    let unscale = match parse_hex(bytes, 23) {
        Some(v) => v,
        None => {
            return Err("Failed to parse hex uscale in raffle::CheckingParameters.");
        },
    };
    Ok((unoffset, unscale))
}

/// The serialized form of the checking parameters `(unoffset, unscale)`:
/// `CHECK-`, 16 lowercase hex digits of `unoffset`, `-`, and 16 lowercase
/// hex digits of `unscale`.
pub open spec fn spec_serialize_checking(unoffset: u64, unscale: u64) -> Seq<u8> {
    seq![0x43u8, 0x48u8, 0x45u8, 0x43u8, 0x4bu8, 0x2du8] + spec_hex16(unoffset) + seq![0x2du8]
        + spec_hex16(unscale)
}

/// Serialises checking parameters into their fixed-width ASCII form.
pub fn serialize_bytes(unoffset: u64, unscale: u64) -> (r: Vec<u8>)
    ensures
        r@ == spec_serialize_checking(unoffset, unscale),
        r@.len() == 39,
{
    let mut out: Vec<u8> = Vec::new();
    out.push(0x43);
    out.push(0x48);
    out.push(0x45);
    out.push(0x43);
    out.push(0x4b);
    out.push(0x2d);
    push_hex16(unoffset, &mut out);
    out.push(0x2d);
    push_hex16(unscale, &mut out);
    proof {
        assert(out@ =~= spec_serialize_checking(unoffset, unscale));
    }
    out
}

/// Round trip: parsing a serialized checking parameter pair gives back
/// exactly the pair that was serialized.
pub proof fn lemma_checking_round_trip(unoffset: u64, unscale: u64)
    ensures
        spec_parse_checking(spec_serialize_checking(unoffset, unscale)) == Some(
            (unoffset, unscale),
        ),
{
    let s = spec_serialize_checking(unoffset, unscale);
    assert(s.len() == 39);
    assert forall|i: int| 0 <= i < 16 implies s[6 + i] == #[trigger] spec_hex16(unoffset)[i] by {}
    assert forall|i: int| 0 <= i < 16 implies s[23 + i] == #[trigger] spec_hex16(unscale)[i] by {}
    lemma_parse_hex_of_hex16(s, 6, unoffset);
    lemma_parse_hex_of_hex16(s, 23, unscale);
    assert(spec_checking_wf(s));
}

} // verus!
