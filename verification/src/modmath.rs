//! Arithmetic in the ring of integers modulo 2^64.
//!
//! Every addition, multiplication and negation in this crate silently wraps
//! modulo 2^64.  The spec-level reduction `m64` and the congruence lemmas
//! here let the other modules state their contracts as exact integer
//! arithmetic followed by a single reduction.

use vstd::prelude::*;
use vstd::arithmetic::div_mod::lemma_add_mod_noop_right;
use vstd::arithmetic::div_mod::lemma_fundamental_div_mod;
use vstd::arithmetic::div_mod::lemma_mod_bound;
use vstd::arithmetic::div_mod::lemma_mod_equivalence;
use vstd::arithmetic::div_mod::lemma_mod_multiples_basic;
use vstd::arithmetic::div_mod::lemma_mul_mod_noop_left;
use vstd::arithmetic::div_mod::lemma_small_mod;
use vstd::arithmetic::div_mod::lemma_sub_mod_noop_right;
use vstd::arithmetic::mul::lemma_mul_is_distributive_sub_other_way;

verus! {

/// The modulus of every wrapping operation in this crate: 2^64.
pub open spec fn two_64() -> int {
    0x1_0000_0000_0000_0000
}

/// Reduces a mathematical integer into the 64-bit ring.
pub open spec fn m64(x: int) -> u64 {
    (x % two_64()) as u64
}

/// The reduction of `x` is congruent to `x` itself modulo 2^64.
pub proof fn lemma_m64_is_mod(x: int)
    ensures
        m64(x) == x % two_64(),
        (x - m64(x)) % two_64() == 0,
{
    lemma_mod_bound(x, two_64());
    lemma_fundamental_div_mod(x, two_64());
    lemma_mod_multiples_basic(x / two_64(), two_64());
}

/// Congruent integers have equal reductions, and conversely.
pub proof fn lemma_m64_equivalence(a: int, b: int)
    ensures
        m64(a) == m64(b) <==> (a - b) % two_64() == 0,
{
    lemma_mod_bound(a, two_64());
    lemma_mod_bound(b, two_64());
    lemma_mod_equivalence(a, b, two_64());
}

/// Reducing one addend before a wrapped sum does not change the result.
pub proof fn lemma_m64_add_left(a: int, b: int)
    ensures
        m64(m64(a) + b) == m64(a + b),
{
    lemma_m64_is_mod(a);
    lemma_add_mod_noop_right(b, a, two_64());
}

/// Reducing the minuend before a wrapped difference does not change the result.
pub proof fn lemma_m64_sub_left(a: int, b: int)
    ensures
        m64(m64(a) - b) == m64(a - b),
{
    lemma_m64_is_mod(a);
    lemma_mod_equivalence(a, m64(a) as int, two_64());
    lemma_mod_equivalence(m64(a) as int, a, two_64());
    lemma_m64_equivalence(m64(a) - b, a - b);
}

/// Reducing the subtrahend before a wrapped difference does not change the
/// result.
pub proof fn lemma_m64_sub_right(a: int, b: int)
    ensures
        m64(a - m64(b)) == m64(a - b),
{
    lemma_m64_is_mod(b);
    lemma_sub_mod_noop_right(a, b, two_64());
}

/// Congruence is preserved by negation.
pub proof fn lemma_m64_neg_congruent(a: int, b: int)
    requires
        m64(a) == m64(b),
    ensures
        m64(-a) == m64(-b),
{
    lemma_m64_equivalence(a, b);
    let d = a - b;
    lemma_fundamental_div_mod(d, two_64());
    assert(d == two_64() * (d / two_64()));
    lemma_mod_multiples_basic(-(d / two_64()), two_64());
    assert((-d) % two_64() == 0);
    lemma_m64_equivalence(-a, -b);
}

/// Reducing one factor before a wrapped product does not change the result.
pub proof fn lemma_m64_mul_left(a: int, b: int)
    ensures
        m64(m64(a) * b) == m64(a * b),
{
    lemma_m64_is_mod(a);
    lemma_mul_mod_noop_left(a, b, two_64());
}

/// Congruence is preserved by adding a common term.
pub proof fn lemma_m64_add_congruent(a: int, b: int, c: int)
    requires
        m64(a) == m64(b),
    ensures
        m64(a + c) == m64(b + c),
{
    lemma_m64_equivalence(a, b);
    lemma_m64_equivalence(a + c, b + c);
}

/// Congruence is preserved by multiplying by a common factor.
pub proof fn lemma_m64_mul_congruent(a: int, b: int, c: int)
    requires
        m64(a) == m64(b),
    ensures
        m64(a * c) == m64(b * c),
{
    lemma_m64_equivalence(a, b);
    assert((a - b) % two_64() == 0);
    lemma_mul_mod_noop_left(a - b, c, two_64());
    lemma_mul_is_distributive_sub_other_way(c, a, b);
    assert(((a - b) * c) % two_64() == 0);
    lemma_m64_equivalence(a * c, b * c);
}

/// A value already inside the 64-bit range reduces to itself.
pub proof fn lemma_m64_small(x: int)
    requires
        0 <= x < two_64(),
    ensures
        m64(x) == x,
{
    lemma_small_mod(x as nat, two_64() as nat);
}

/// The wrapping operations of `vstd` compute exactly the `m64` reduction
/// of the corresponding exact integer operation.
pub proof fn lemma_wrapping_ops_are_m64(a: u64, b: u64)
    ensures
        vstd::wrapping::u64_specs::wrapping_add(a, b) == m64(a + b),
        vstd::wrapping::u64_specs::wrapping_sub(a, b) == m64(a - b),
        vstd::wrapping::u64_specs::wrapping_mul(a, b) == m64(a * b),
{
    if a + b <= u64::MAX {
        lemma_m64_small(a + b);
    } else {
        lemma_m64_equivalence(a + b - two_64(), a + b);
        lemma_m64_small(a + b - two_64());
    }
    if a - b >= 0 {
        lemma_m64_small(a - b);
    } else {
        lemma_m64_equivalence(a - b + two_64(), a - b);
        lemma_m64_small(a - b + two_64());
    }
    lemma_mod_bound(a * b, two_64());
    assert(a as nat * b as nat == (a * b) as nat);
}

} // verus!
