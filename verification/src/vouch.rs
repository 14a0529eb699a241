//! The voucher producing transform and the serialized form of vouching
//! parameters.

use vstd::prelude::*;
use crate::modmath::m64;
use crate::modmath::lemma_m64_mul_left;
use crate::modmath::lemma_wrapping_ops_are_m64;
use crate::check::spec_check;
use crate::check::check;
use crate::constparse::parse_hex;
use crate::constparse::push_hex16;
use crate::constparse::spec_hex16;
use crate::constparse::spec_parse_hex;
use crate::constparse::lemma_parse_hex_of_hex16;

verus! {

/// The vouching multiplier is stored XOR-ed with this tag: the ASCII
/// string `Vouching` read as a little-endian integer.
pub const VOUCHING_TAG: u64 = 0x676e696863756f56;

/// The exact length of serialized vouching parameters.
pub const REPRESENTATION_BYTE_COUNT: usize = 73;

/// What `vouch` computes: `(value + offset) * (scale ^ VOUCHING_TAG)` in
/// the ring of integers modulo 2^64.
pub open spec fn spec_vouch(offset: u64, scale: u64, value: u64) -> u64 {
    m64((value + offset) * ((scale ^ VOUCHING_TAG) as int))
}

/// Returns the voucher representation of `value`, given the vouching
/// parameters `offset` and `scale`.
///
/// The result must satisfy the checking transform for the paired
/// checking parameters `(unoffset, unscale)`: inconsistent (forged or
/// mismatched) parameter pairs are ruled out by the precondition, so
/// this function never faults.
pub fn vouch(offset: u64, scale: u64, checking: (u64, u64), value: u64) -> (r: u64)
    requires
        spec_check(checking.0, checking.1, value, spec_vouch(offset, scale, value)),
    ensures
        r == spec_vouch(offset, scale, value),
        spec_check(checking.0, checking.1, value, r),
{
    let ret = value.wrapping_add(offset).wrapping_mul(scale ^ VOUCHING_TAG);
    proof {
        let det = (scale ^ VOUCHING_TAG) as int;
        lemma_wrapping_ops_are_m64(value, offset);
        lemma_wrapping_ops_are_m64(m64(value + offset), scale ^ VOUCHING_TAG);
        lemma_m64_mul_left(value + offset, det);
    }
    // This check cannot fail: the precondition makes it vacuous.
    let ok = check(checking.0, checking.1, value, ret);
    assert(ok);
    ret
}

/// The wrapping add-then-multiply of the vouching transform computes
/// exactly `spec_vouch`.
pub proof fn lemma_vouch_value(offset: u64, scale: u64, value: u64)
    ensures
        vstd::wrapping::u64_specs::wrapping_mul(
            vstd::wrapping::u64_specs::wrapping_add(value, offset),
            scale ^ VOUCHING_TAG,
        ) == spec_vouch(offset, scale, value),
{
    let det = (scale ^ VOUCHING_TAG) as int;
    lemma_wrapping_ops_are_m64(value, offset);
    lemma_wrapping_ops_are_m64(m64(value + offset), scale ^ VOUCHING_TAG);
    lemma_m64_mul_left(value + offset, det);
}

/// The six-byte prefix `VOUCH-` of serialized vouching parameters.
pub open spec fn spec_vouching_prefix_ok(s: Seq<u8>) -> bool {
    &&& s[0] == 0x56
    &&& s[1] == 0x4f
    &&& s[2] == 0x55
    &&& s[3] == 0x43
    &&& s[4] == 0x48
    &&& s[5] == 0x2d
}

/// Structural validity of serialized vouching parameters: exactly 73
/// bytes laid out as `VOUCH-` followed by the four 16-digit hex fields
/// `offset`, `scale`, `unoffset` and `unscale`, separated by `-`.
pub open spec fn spec_vouching_wf(s: Seq<u8>) -> bool {
    &&& s.len() == 73
    &&& spec_vouching_prefix_ok(s)
    &&& spec_parse_hex(s, 6) is Some
    &&& s[22] == 0x2d
    &&& spec_parse_hex(s, 23) is Some
    &&& s[39] == 0x2d
    &&& spec_parse_hex(s, 40) is Some
    &&& s[56] == 0x2d
    &&& spec_parse_hex(s, 57) is Some
}

/// What `parse_bytes` accepts: the decoded `(offset, scale, (unoffset,
/// unscale))` quadruple of a structurally valid serialization, and
/// `None` for every other input.
pub open spec fn spec_parse_vouching(s: Seq<u8>) -> Option<(u64, u64, (u64, u64))> {
    if spec_vouching_wf(s) {
        match (spec_parse_hex(s, 6), spec_parse_hex(s, 23), spec_parse_hex(s, 40), spec_parse_hex(
            s,
            57,
        )) {
            (Some(offset), Some(scale), Some(unoffset), Some(unscale)) => Some(
                (offset, scale, (unoffset, unscale)),
            ),
            _ => None,
        }
    } else {
        None
    }
}

/// Parses the `bytes` as the serialised ASCII representation of vouching
/// parameters.
///
/// Returns `(offset, scale, (unoffset, unscale))` on success or a
/// failure reason string.  Each structural defect is reported by its own
/// message, fields checked left to right.
pub fn parse_bytes(bytes: &[u8]) -> (r: Result<(u64, u64, (u64, u64)), &'static str>)
    ensures
        r is Ok <==> spec_parse_vouching(bytes@) is Some,
        r matches Ok(p) ==> spec_parse_vouching(bytes@) == Some(p),
        bytes@.len() < 73 ==> (r matches Err(m) && m@
            == "Too few bytes in serialized raffle::VouchingParameters"@),
        bytes@.len() > 73 ==> (r matches Err(m) && m@
            == "Too many bytes in serialized raffle::VouchingParameters"@),
        bytes@.len() == 73 && !spec_vouching_prefix_ok(bytes@) ==> (r matches Err(m) && m@
            == "Incorrect prefix for serialized raffle::VouchingParameters. Expected VOUCH-"@),
        bytes@.len() == 73 && spec_vouching_prefix_ok(bytes@) && spec_parse_hex(bytes@, 6)
            is None ==> (r matches Err(m) && m@
            == "Failed to parse hex offset in serialized raffle::VouchingParameters."@),
        bytes@.len() == 73 && spec_vouching_prefix_ok(bytes@) && spec_parse_hex(bytes@, 6)
            is Some && bytes@[22] != 0x2d ==> (r matches Err(m) && m@
            == "Missing dash separator after offset in serialized raffle::VouchingParameters"@),
        bytes@.len() == 73 && spec_vouching_prefix_ok(bytes@) && spec_parse_hex(bytes@, 6)
            is Some && bytes@[22] == 0x2d && spec_parse_hex(bytes@, 23) is None ==> (r matches Err(
        m) && m@ == "Failed to parse hex scale in serialized raffle::VouchingParameters."@),
        bytes@.len() == 73 && spec_vouching_prefix_ok(bytes@) && spec_parse_hex(bytes@, 6)
            is Some && bytes@[22] == 0x2d && spec_parse_hex(bytes@, 23) is Some && bytes@[39]
            != 0x2d ==> (r matches Err(m) && m@
            == "Missing dash separator after scale in serialized raffle::VouchingParameters"@),
        bytes@.len() == 73 && spec_vouching_prefix_ok(bytes@) && spec_parse_hex(bytes@, 6)
            is Some && bytes@[22] == 0x2d && spec_parse_hex(bytes@, 23) is Some && bytes@[39]
            == 0x2d && spec_parse_hex(bytes@, 40) is None ==> (r matches Err(m) && m@
            == "Failed to parse hex unoffset in serialized raffle::VouchingParameters."@),
        bytes@.len() == 73 && spec_vouching_prefix_ok(bytes@) && spec_parse_hex(bytes@, 6)
            is Some && bytes@[22] == 0x2d && spec_parse_hex(bytes@, 23) is Some && bytes@[39]
            == 0x2d && spec_parse_hex(bytes@, 40) is Some && bytes@[56] != 0x2d ==> (r matches Err(
        m) && m@
            == "Missing dash separator after unoffset in serialized raffle::VouchingParameters"@),
        bytes@.len() == 73 && spec_vouching_prefix_ok(bytes@) && spec_parse_hex(bytes@, 6)
            is Some && bytes@[22] == 0x2d && spec_parse_hex(bytes@, 23) is Some && bytes@[39]
            == 0x2d && spec_parse_hex(bytes@, 40) is Some && bytes@[56] == 0x2d && spec_parse_hex(
            bytes@,
            57,
        ) is None ==> (r matches Err(m) && m@
            == "Failed to parse hex unscale in serialized raffle::VouchingParameters."@),
{
    // Expected length:
    //  "VOUCH-"     [ 0,  6)
    //  hex offset   [ 6, 22)
    //  "-"          [22, 23)
    //  hex scale    [23, 39)
    //  "-"          [39, 40)
    //  hex unoffset [40, 56)
    //  "-"          [56, 57)
    //  hex unscale  [57, 73)
    if bytes.len() < REPRESENTATION_BYTE_COUNT {
        return Err("Too few bytes in serialized raffle::VouchingParameters");
    }
    if bytes.len() > REPRESENTATION_BYTE_COUNT {
        return Err("Too many bytes in serialized raffle::VouchingParameters");
    }
    if bytes[0] != 0x56 || bytes[1] != 0x4f || bytes[2] != 0x55 || bytes[3] != 0x43 || bytes[4]
        != 0x48 || bytes[5] != 0x2d {
        return Err("Incorrect prefix for serialized raffle::VouchingParameters. Expected VOUCH-");
    }
    let offset = match parse_hex(bytes, 6) {
        Some(v) => v,
        None => {
            return Err("Failed to parse hex offset in serialized raffle::VouchingParameters.");
        },
    };
    if bytes[22] != 0x2d {
        return Err("Missing dash separator after offset in serialized raffle::VouchingParameters");
    }
    let scale = match parse_hex(bytes, 23) {
        Some(v) => v,
        None => {
            return Err("Failed to parse hex scale in serialized raffle::VouchingParameters.");
        },
    };
    if bytes[39] != 0x2d {
        return Err("Missing dash separator after scale in serialized raffle::VouchingParameters");
    }
    let unoffset = match parse_hex(bytes, 40) {
        Some(v) => v,
        None => {
            return Err("Failed to parse hex unoffset in serialized raffle::VouchingParameters.");
        },
    };
    if bytes[56] != 0x2d {
        return Err(
            "Missing dash separator after unoffset in serialized raffle::VouchingParameters",
        );
    }
    let unscale = match parse_hex(bytes, 57) {
        Some(v) => v,
        None => {
            return Err("Failed to parse hex unscale in serialized raffle::VouchingParameters.");
        },
    };
    Ok((offset, scale, (unoffset, unscale)))
}

/// The serialized form of the vouching parameters: `VOUCH-` followed by
/// the four 16-digit lowercase hex fields separated by `-`.
pub open spec fn spec_serialize_vouching(
    offset: u64,
    scale: u64,
    unoffset: u64,
    unscale: u64,
) -> Seq<u8> {
    seq![0x56u8, 0x4fu8, 0x55u8, 0x43u8, 0x48u8, 0x2du8] + spec_hex16(offset) + seq![0x2du8]
        + spec_hex16(scale) + seq![0x2du8] + spec_hex16(unoffset) + seq![0x2du8] + spec_hex16(
        unscale,
    )
}

/// Serialises vouching parameters into their fixed-width ASCII form.
pub fn serialize_bytes(offset: u64, scale: u64, unoffset: u64, unscale: u64) -> (r: Vec<u8>)
    ensures
        r@ == spec_serialize_vouching(offset, scale, unoffset, unscale),
        r@.len() == 73,
{
    let mut out: Vec<u8> = Vec::new();
    out.push(0x56);
    out.push(0x4f);
    out.push(0x55);
    out.push(0x43);
    out.push(0x48);
    out.push(0x2d);
    push_hex16(offset, &mut out);
    out.push(0x2d);
    push_hex16(scale, &mut out);
    out.push(0x2d);
    push_hex16(unoffset, &mut out);
    out.push(0x2d);
    push_hex16(unscale, &mut out);
    proof {
        assert(out@ =~= spec_serialize_vouching(offset, scale, unoffset, unscale));
    }
    out
}

/// Round trip: parsing a serialized vouching parameter quadruple gives
/// back exactly the quadruple that was serialized.
pub proof fn lemma_vouching_round_trip(offset: u64, scale: u64, unoffset: u64, unscale: u64)
    ensures
        spec_parse_vouching(spec_serialize_vouching(offset, scale, unoffset, unscale)) == Some(
            (offset, scale, (unoffset, unscale)),
        ),
{
    let s = spec_serialize_vouching(offset, scale, unoffset, unscale);
    assert(s.len() == 73);
    assert forall|i: int| 0 <= i < 16 implies s[6 + i] == #[trigger] spec_hex16(offset)[i] by {}
    assert forall|i: int| 0 <= i < 16 implies s[23 + i] == #[trigger] spec_hex16(scale)[i] by {}
    assert forall|i: int| 0 <= i < 16 implies s[40 + i] == #[trigger] spec_hex16(unoffset)[i] by {}
    assert forall|i: int| 0 <= i < 16 implies s[57 + i] == #[trigger] spec_hex16(unscale)[i] by {}
    lemma_parse_hex_of_hex16(s, 6, offset);
    lemma_parse_hex_of_hex16(s, 23, scale);
    lemma_parse_hex_of_hex16(s, 40, unoffset);
    lemma_parse_hex_of_hex16(s, 57, unscale);
    assert(spec_vouching_wf(s));
}

} // verus!
