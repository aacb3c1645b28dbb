//! Division that rounds up.

use vstd::arithmetic::div_mod::{lemma_div_is_ordered_by_denominator, lemma_fundamental_div_mod};
use vstd::prelude::*;

verus! {

/// The quotient of `a` by `b`, rounded up.
pub open spec fn ceil_div(a: nat, b: nat) -> nat
    recommends
        b > 0,
{
    if a % b == 0 {
        a / b
    } else {
        a / b + 1
    }
}

/// The rounded-up quotient is the least number of pieces of size `b` that
/// hold `a` between them.
pub proof fn lemma_ceil_div_is_least(a: nat, b: nat)
    requires
        b > 0,
    ensures
        a <= ceil_div(a, b) * b,
        a > 0 ==> ceil_div(a, b) >= 1 && (ceil_div(a, b) - 1) * b < a,
        a == 0 ==> ceil_div(a, b) == 0,
{
    lemma_fundamental_div_mod(a as int, b as int);
    let q = a / b;
    let r = a % b;
    if r == 0 {
        assert(q * b == b * q) by (nonlinear_arith);
        if a > 0 {
            assert(q >= 1) by (nonlinear_arith)
                requires
                    a == b * q,
                    a > 0,
                    q >= 0,
            ;
            assert((q - 1) * b == b * q - b) by (nonlinear_arith);
        }
    } else {
        assert((q + 1) * b == b * q + b) by (nonlinear_arith);
        assert((q + 1 - 1) * b == b * q) by (nonlinear_arith);
    }
}

/// Computes the quotient of `a` by `b`, rounded up.
pub fn ceil_div_u64(a: u64, b: u64) -> (quotient: u64)
    requires
        b > 0,
    ensures
        quotient == ceil_div(a as nat, b as nat),
{
    let q: u64 = a / b;
    if a % b == 0 {
        q
    } else {
        proof {
            lemma_div_is_ordered_by_denominator(a as int, 2, b as int);
        }
        q + 1
    }
}

} // verus!
