//! The parameter value types and the generation orchestrator.
//!
//! `VouchingParameters` owns its paired `CheckingParameters` by value;
//! both are immutable value types that may be freely copied.  Generation
//! pulls two seed values from an injected fallible source and derives a
//! self-consistent quadruple from them.

use vstd::prelude::*;
use vstd::arithmetic::div_mod::lemma_mod_multiples_vanish;
use crate::modmath::m64;
use crate::modmath::two_64;
use crate::modmath::lemma_m64_is_mod;
use crate::modmath::lemma_m64_small;
use crate::modmath::lemma_m64_equivalence;
use crate::modmath::lemma_m64_add_congruent;
use crate::modmath::lemma_m64_mul_congruent;
use vstd::arithmetic::mul::lemma_mul_is_commutative;
use crate::check::spec_check;
use crate::check::check;
use crate::check::spec_serialize_checking;
use crate::check::spec_parse_checking;
use crate::vouch::spec_vouch;
use crate::vouch::vouch;
use crate::vouch::spec_serialize_vouching;
use crate::vouch::spec_parse_vouching;
use crate::generate::spec_params_valid;
use crate::generate::derive_parameters;
use crate::generate::lemma_compose_unreduced;
use crate::check::WANTED_SUM;
use crate::check::CHECKING_TAG;
use crate::vouch::VOUCHING_TAG;

verus! {

/// The checking half of a parameter pair: `(unoffset, unscale)` with the
/// checking tag applied to `unscale`.  Carries no ownership relation to
/// the vouching parameters that produced it.
#[derive(Clone, Copy, Debug, PartialEq, Eq, Structural)]
pub struct CheckingParameters {
    pub unoffset: u64,
    pub unscale: u64,
}

/// A full vouching parameter set: the forward affine map plus its paired
/// checking parameters, with the vouching tag applied to `scale`.
#[derive(Clone, Copy, Debug, PartialEq, Eq, Structural)]
pub struct VouchingParameters {
    pub offset: u64,
    pub scale: u64,
    pub checking: CheckingParameters,
}

impl CheckingParameters {
    /// Determines whether `voucher` was generated for `expected` with
    /// the vouching parameters paired with this checking set.
    pub fn check(&self, expected: u64, voucher: u64) -> (r: bool)
        ensures
            r == spec_check(self.unoffset, self.unscale, expected, voucher),
    {
        check(self.unoffset, self.unscale, expected, voucher)
    }

    /// Serialises into the fixed-width 39-byte ASCII form.
    pub fn to_ascii_bytes(&self) -> (r: Vec<u8>)
        ensures
            r@ == spec_serialize_checking(self.unoffset, self.unscale),
    {
        crate::check::serialize_bytes(self.unoffset, self.unscale)
    }

    /// Parses the fixed-width ASCII form back into checking parameters.
    pub fn parse(bytes: &[u8]) -> (r: Result<Self, &'static str>)
        ensures
            r is Ok <==> spec_parse_checking(bytes@) is Some,
            r matches Ok(p) ==> spec_parse_checking(bytes@) == Some((p.unoffset, p.unscale)),
    {
        match crate::check::parse_bytes(bytes) {
            Ok((unoffset, unscale)) => Ok(CheckingParameters { unoffset, unscale }),
            Err(m) => Err(m),
        }
    }
}

/// Whether a vouching parameter set certifies every 64-bit value.
pub open spec fn spec_vouching_valid(p: VouchingParameters) -> bool {
    spec_params_valid(p.offset, p.scale, p.checking.unoffset, p.checking.unscale)
}

/// Two matching points certify the whole map: the composition of the two
/// affine maps is itself affine, and an affine map over this ring is
/// pinned by its values at 0 and 1.  If vouch-then-check succeeds at 0
/// and at 1, it succeeds everywhere.
pub proof fn lemma_two_point_certification(offset: u64, scale: u64, unoffset: u64, unscale: u64)
    requires
        spec_check(unoffset, unscale, 0, spec_vouch(offset, scale, 0)),
        spec_check(unoffset, unscale, 1, spec_vouch(offset, scale, 1)),
    ensures
        spec_params_valid(offset, scale, unoffset, unscale),
{
    let p = two_64();
    let a = (scale ^ VOUCHING_TAG) as int;
    let b = (unscale ^ CHECKING_TAG) as int;
    let off = offset as int;
    let uo = unoffset as int;

    lemma_compose_unreduced(unoffset, unscale, 0, offset, scale);
    lemma_compose_unreduced(unoffset, unscale, 1, offset, scale);
    let f0 = ((0 + off) * a + uo) * b + 0;
    let f1 = ((1 + off) * a + uo) * b + 1;
    assert(m64(f0) == WANTED_SUM && m64(f1) == WANTED_SUM);

    // The slope of the composition is a * b + 1; equal values at 0 and 1
    // force it to vanish modulo 2^64, i.e. a * b == -1.
    lemma_m64_equivalence(f1, f0);
    assert(f1 - f0 == a * b + 1) by (nonlinear_arith)
        requires
            f0 == ((0 + off) * a + uo) * b + 0,
            f1 == ((1 + off) * a + uo) * b + 1,
    ;
    assert((a * b + 1) % p == 0);
    lemma_m64_equivalence(a * b, p - 1);
    lemma_m64_small(p - 1);
    assert(m64(a * b) == u64::MAX);

    // The value at 0 then forces the offset equation of the deriver.
    assert(f0 == off * (a * b) + uo * b) by (nonlinear_arith)
        requires
            f0 == ((0 + off) * a + uo) * b + 0,
    ;
    lemma_m64_mul_congruent(a * b, p - 1, off);
    lemma_mul_is_commutative(a * b, off);
    lemma_mul_is_commutative(p - 1, off);
    assert(m64(off * (a * b)) == m64(off * (p - 1)));
    lemma_m64_add_congruent(off * (a * b), off * (p - 1), uo * b);
    assert(off * (p - 1) + uo * b == p * off + (uo * b - off));
    lemma_mod_multiples_vanish(off, uo * b - off, p);
    lemma_m64_is_mod(p * off + (uo * b - off));
    lemma_m64_is_mod(uo * b - off);
    assert(m64(uo * b - off) == WANTED_SUM);

    // Rearrange into offset == m64(b * unoffset - WANTED_SUM).
    lemma_m64_small(WANTED_SUM as int);
    lemma_m64_equivalence(uo * b - off, WANTED_SUM as int);
    lemma_mul_is_commutative(uo, b);
    lemma_m64_equivalence(b * uo - WANTED_SUM, off);
    lemma_m64_small(off);
    assert(offset == m64(b * uo - WANTED_SUM));

    assert forall|v: u64| spec_check(unoffset, unscale, v, #[trigger] spec_vouch(
        offset,
        scale,
        v,
    )) by {
        crate::generate::lemma_affine_compose(offset, scale, unoffset, unscale, v);
    }
}

/// A fallible source of 64-bit seed values, supplied by the caller of
/// `VouchingParameters::generate`.  The core makes no assumption about
/// how seeds are produced; any failure aborts generation and is handed
/// back unchanged.
pub trait SeedSource {
    type Error;

    /// Produces the next seed value, or a caller-defined error.
    fn next_seed(&mut self) -> Result<u64, Self::Error>;
}

impl VouchingParameters {
    /// Applies the forward transform to `value` and returns the voucher.
    ///
    /// The parameters must be internally consistent (as every generated
    /// or derived set is); inconsistent sets are ruled out by the
    /// precondition.
    pub fn vouch(&self, value: u64) -> (r: u64)
        requires
            spec_vouching_valid(*self),
        ensures
            r == spec_vouch(self.offset, self.scale, value),
            spec_check(self.checking.unoffset, self.checking.unscale, value, r),
    {
        vouch(
            self.offset,
            self.scale,
            (self.checking.unoffset, self.checking.unscale),
            value,
        )
    }

    /// The checking half of this parameter set, freely copyable.
    pub fn checking_parameters(&self) -> (r: CheckingParameters)
        ensures
            r == self.checking,
    {
        self.checking
    }

    /// Derives a full parameter set from the two raw seed values.
    pub fn derive(scale_seed: u64, unoffset_seed: u64) -> (r: Self)
        ensures
            crate::generate::spec_derived(
                scale_seed,
                unoffset_seed,
                (r.offset, r.scale, (r.checking.unoffset, r.checking.unscale)),
            ),
            spec_vouching_valid(r),
    {
        let (offset, scale, (unoffset, unscale)) = derive_parameters(scale_seed, unoffset_seed);
        VouchingParameters { offset, scale, checking: CheckingParameters { unoffset, unscale } }
    }

    /// Pulls two seed values from `source` (the scale seed, then the
    /// unoffset seed) and derives a parameter set from them.  A seed
    /// failure aborts generation and is propagated unchanged; no partial
    /// parameter object is produced.
    pub fn generate<S: SeedSource>(source: &mut S) -> (r: Result<Self, S::Error>)
        ensures
            r matches Ok(p) ==> spec_vouching_valid(p),
    {
        let scale_seed = match source.next_seed() {
            Ok(v) => v,
            Err(e) => {
                return Err(e);
            },
        };
        let unoffset_seed = match source.next_seed() {
            Ok(v) => v,
            Err(e) => {
                return Err(e);
            },
        };
        Ok(Self::derive(scale_seed, unoffset_seed))
    }

    /// Runs the vouch-then-check self-test at 0 and 1.  By
    /// `lemma_two_point_certification` two matches already certify the
    /// whole map, so the result decides validity for every value: use
    /// this to vet a parsed parameter set before vouching with it.
    pub fn is_consistent(&self) -> (r: bool)
        ensures
            r == spec_vouching_valid(*self),
    {
        let v0 = 0u64.wrapping_add(self.offset).wrapping_mul(self.scale ^ VOUCHING_TAG);
        let v1 = 1u64.wrapping_add(self.offset).wrapping_mul(self.scale ^ VOUCHING_TAG);
        proof {
            crate::vouch::lemma_vouch_value(self.offset, self.scale, 0);
            crate::vouch::lemma_vouch_value(self.offset, self.scale, 1);
        }
        let ok = check(self.checking.unoffset, self.checking.unscale, 0, v0) && check(
            self.checking.unoffset,
            self.checking.unscale,
            1,
            v1,
        );
        proof {
            if ok {
                lemma_two_point_certification(
                    self.offset,
                    self.scale,
                    self.checking.unoffset,
                    self.checking.unscale,
                );
            }
        }
        ok
    }

    /// Serialises into the fixed-width 73-byte ASCII form.
    pub fn to_ascii_bytes(&self) -> (r: Vec<u8>)
        ensures
            r@ == spec_serialize_vouching(
                self.offset,
                self.scale,
                self.checking.unoffset,
                self.checking.unscale,
            ),
    {
        crate::vouch::serialize_bytes(
            self.offset,
            self.scale,
            self.checking.unoffset,
            self.checking.unscale,
        )
    }

    /// Parses the fixed-width ASCII form back into vouching parameters.
    ///
    /// Parsing checks structure only, not algebraic consistency: vet the
    /// result with `is_consistent` before vouching with it.
    pub fn parse(bytes: &[u8]) -> (r: Result<Self, &'static str>)
        ensures
            r is Ok <==> spec_parse_vouching(bytes@) is Some,
            r matches Ok(p) ==> spec_parse_vouching(bytes@) == Some(
                (p.offset, p.scale, (p.checking.unoffset, p.checking.unscale)),
            ),
    {
        match crate::vouch::parse_bytes(bytes) {
            Ok((offset, scale, (unoffset, unscale))) => Ok(
                VouchingParameters {
                    offset,
                    scale,
                    checking: CheckingParameters { unoffset, unscale },
                },
            ),
            Err(m) => Err(m),
        }
    }
}

} // verus!
