use vstd::prelude::*;
use vstd::arithmetic::div_mod::{
    lemma_basic_div, lemma_div_basics, lemma_fundamental_div_mod, lemma_mod_bound,
};

verus! {

/// Unsigned 32-bit integer division, truncating toward zero.
///
/// The divisor must be nonzero: a zero divisor is the one fault this
/// library recognizes, and callers that cannot rule it out go through
/// `fault::Machine::divide`, which halts instead of returning a value.
pub fn div(left: u32, right: u32) -> (quotient: u32)
    requires
        right != 0,
    ensures
        quotient == left as int / right as int,
{
    left / right
}

/// The quotient is the floor of the exact ratio: `right * quotient` is
/// the largest multiple of `right` that does not exceed `left`, so no
/// fractional remainder is retained.
pub proof fn lemma_quotient_is_floor(left: u32, right: u32)
    requires
        right != 0,
    ensures
        right * (left as int / right as int) <= left,
        left < right * (left as int / right as int + 1),
{
    let q: int = left as int / right as int;
    lemma_fundamental_div_mod(left as int, right as int);
    lemma_mod_bound(left as int, right as int);
    assert(right * (q + 1) == right * q + right) by (nonlinear_arith);
}

/// A dividend smaller than the divisor yields a quotient of zero.
pub proof fn lemma_small_dividend(left: u32, right: u32)
    requires
        right != 0,
        left < right,
    ensures
        left as int / right as int == 0,
{
    lemma_basic_div(left as int, right as int);
}

/// Dividing by one returns the dividend unchanged.
pub proof fn lemma_divide_by_one(left: u32)
    ensures
        left as int / 1 == left,
{
    lemma_div_basics(left as int);
}

/// A zero dividend yields a zero quotient for every nonzero divisor.
pub proof fn lemma_zero_dividend(right: u32)
    requires
        right != 0,
    ensures
        0int / right as int == 0,
{
    lemma_div_basics(right as int);
}

} // verus!
