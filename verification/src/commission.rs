//! Commission arithmetic: the floor split of an attached amount, and an
//! executable computation of it that stays within the asset's integer width.
use vstd::prelude::*;

use vstd::arithmetic::div_mod::{
    lemma_div_by_multiple, lemma_div_is_ordered, lemma_div_pos_is_pos, lemma_fundamental_div_mod,
    lemma_fundamental_div_mod_converse_div, lemma_mod_bound,
};
use vstd::arithmetic::mul::{
    lemma_mul_inequality, lemma_mul_is_commutative, lemma_mul_nonnegative,
};

use crate::state::commission_of;

verus! {

/// The commission never goes negative nor exceeds the attached amount.
pub proof fn lemma_commission_bounds(amount: int, percent: int)
    requires
        0 <= amount,
        0 <= percent <= 100,
    ensures
        0 <= commission_of(amount, percent) <= amount,
{
    lemma_mul_nonnegative(amount, percent);
    lemma_div_pos_is_pos(amount * percent, 100);
    lemma_mul_inequality(percent, 100, amount);
    lemma_mul_is_commutative(amount, percent);
    lemma_mul_is_commutative(100, amount);
    lemma_div_is_ordered(amount * percent, amount * 100, 100);
    lemma_div_by_multiple(amount, 100);
}

/// Splitting the amount at the divisor yields the same floor commission:
/// the identity the executable computation relies on to avoid overflow.
pub proof fn lemma_commission_split(amount: int, percent: int)
    requires
        0 <= amount,
        0 <= percent,
    ensures
        commission_of(amount, percent) == (amount / 100) * percent + ((amount % 100) * percent)
            / 100,
{
    let q = amount / 100;
    let r = amount % 100;
    lemma_fundamental_div_mod(amount, 100);
    lemma_mod_bound(amount, 100);
    let q1 = (r * percent) / 100;
    let r1 = (r * percent) % 100;
    lemma_fundamental_div_mod(r * percent, 100);
    lemma_mod_bound(r * percent, 100);
    assert(amount * percent == 100 * (q * percent) + r * percent) by (nonlinear_arith)
        requires
            amount == 100 * q + r,
    ;
    assert(amount * percent == (q * percent + q1) * 100 + r1) by (nonlinear_arith)
        requires
            amount * percent == 100 * (q * percent) + r * percent,
            r * percent == 100 * q1 + r1,
    ;
    lemma_fundamental_div_mod_converse_div(amount * percent, 100, q * percent + q1, r1);
}

/// Computes the floor commission of an attached amount.  The two-part split
/// keeps every intermediate product within the asset's integer width.
pub fn commission_for(amount: u128, percent: u8) -> (c: u128)
    requires
        percent <= 100,
    ensures
        c as int == commission_of(amount as int, percent as int),
{
    let p = percent as u128;
    let whole = amount / 100;
    let part = amount % 100;
    proof {
        lemma_commission_split(amount as int, p as int);
        lemma_commission_bounds(amount as int, p as int);
        lemma_fundamental_div_mod(amount as int, 100);
        lemma_mod_bound(amount as int, 100);
        lemma_mul_inequality(p as int, 100, whole as int);
        lemma_mul_is_commutative(whole as int, p as int);
        lemma_mul_is_commutative(100, whole as int);
    }
    proof {
        assert((part as int) * (p as int) <= 9900) by (nonlinear_arith)
            requires
                0 <= part as int <= 99,
                0 <= p as int <= 100,
        ;
    }
    let head = whole * p;
    let tail = (part * p) / 100;
    head + tail
}

} // verus!
