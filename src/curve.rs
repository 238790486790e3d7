//! The curve: what a trade costs, given the reserve it is priced at.
use vstd::prelude::*;

verus! {

/// Price of one whole token's worth of curve slope, in the native currency's
/// smallest units.
pub const BASE_PRICE: u64 = 10_000;

/// Smallest native-currency units per whole unit.
pub const LAMPORTS_PER_SOL: u128 = 1_000_000_000;

/// Price of one indivisible token unit when the reserve holds `supply` units.
pub open spec fn marginal_price(supply: int) -> int {
    BASE_PRICE + supply * BASE_PRICE / (LAMPORTS_PER_SOL as int)
}

/// Cost of `amount` units at reserve `supply`, clamped to `u64::MAX`.
pub open spec fn price_of(supply: u64, amount: u64) -> u64 {
    let total = marginal_price(supply as int) * amount;
    if total > u64::MAX {
        u64::MAX
    } else {
        total as u64
    }
}

/// Total cost of `amount` token units when the reserve holds `supply` units.
/// The result saturates at `u64::MAX` instead of wrapping.
pub fn calculate_price(supply: u64, amount: u64) -> (r: u64)
    ensures
        r == price_of(supply, amount),
        r as int == if marginal_price(supply as int) * amount > u64::MAX {
            u64::MAX as int
        } else {
            marginal_price(supply as int) * amount
        },
{
    let supply_u128 = supply as u128;
    let base_price_u128 = BASE_PRICE as u128;
    assert(supply_u128 * base_price_u128 <= 0xffff_ffff_ffff_ffffu128 * 10_000) by (nonlinear_arith)
        requires supply_u128 <= 0xffff_ffff_ffff_ffffu128, base_price_u128 == 10_000;
    let slope = supply_u128 * base_price_u128 / LAMPORTS_PER_SOL;
    let price_per_token = base_price_u128.saturating_add(slope);
    assert(price_per_token as int == marginal_price(supply as int));
    assert(price_per_token <= 10_000 + 0xffff_ffff_ffff_ffffu128 * 10_000 / 1_000_000_000);
    assert(price_per_token * (amount as u128) <= u128::MAX) by (nonlinear_arith)
        requires
            price_per_token <= 10_000 + 0xffff_ffff_ffff_ffffu128 * 10_000 / 1_000_000_000,
            amount <= u64::MAX,
    ;
    let total_price = price_per_token * (amount as u128);
    if total_price > u64::MAX as u128 {
        u64::MAX
    } else {
        total_price as u64
    }
}

/// The marginal price never falls as the reserve grows.
pub proof fn lemma_marginal_price_monotonic(s1: int, s2: int)
    requires
        0 <= s1 <= s2,
    ensures
        BASE_PRICE <= marginal_price(s1) <= marginal_price(s2),
{
    assert(s1 * 10_000 <= s2 * 10_000) by (nonlinear_arith)
        requires s1 <= s2;
    vstd::arithmetic::div_mod::lemma_div_is_ordered(s1 * 10_000, s2 * 10_000, 1_000_000_000);
    vstd::arithmetic::div_mod::lemma_div_pos_is_pos(s1 * 10_000, 1_000_000_000);
}

/// For a fixed reserve, the price of a trade never falls as the amount
/// grows; it is a function of its two arguments and never negative.
pub proof fn lemma_price_monotonic_in_amount(supply: u64, a1: u64, a2: u64)
    requires
        a1 <= a2,
    ensures
        0 <= price_of(supply, a1) <= price_of(supply, a2),
{
    lemma_marginal_price_monotonic(0, supply as int);
    let m = marginal_price(supply as int);
    assert(m * a1 <= m * a2) by (nonlinear_arith)
        requires 0 <= m, a1 <= a2;
}

/// For a fixed amount, the price of a trade never falls as the reserve grows.
pub proof fn lemma_price_monotonic_in_supply(s1: u64, s2: u64, amount: u64)
    requires
        s1 <= s2,
    ensures
        price_of(s1, amount) <= price_of(s2, amount),
{
    lemma_marginal_price_monotonic(s1 as int, s2 as int);
    let m1 = marginal_price(s1 as int);
    let m2 = marginal_price(s2 as int);
    assert(m1 * amount <= m2 * amount) by (nonlinear_arith)
        requires 0 <= m1 <= m2, 0 <= amount;
}

/// A trade whose exact cost does not fit in a `u64`, as at the largest
/// representable reserve, is priced at `u64::MAX`: the cost saturates and
/// never wraps to a smaller value.
pub proof fn lemma_price_saturates(supply: u64, amount: u64)
    requires
        marginal_price(supply as int) * amount > u64::MAX,
    ensures
        price_of(supply, amount) == u64::MAX,
        forall|a: u64| amount <= a ==> #[trigger] price_of(supply, a) == u64::MAX,
{
    assert forall|a: u64| amount <= a implies #[trigger] price_of(supply, a) == u64::MAX by {
        lemma_marginal_price_monotonic(0, supply as int);
        let m = marginal_price(supply as int);
        assert(m * amount <= m * a) by (nonlinear_arith)
            requires 0 <= m, amount <= a;
    }
}

/// At the largest representable reserve, every trade of at least 100,000
/// units costs `u64::MAX`.
pub proof fn lemma_price_saturates_at_max_supply(amount: u64)
    requires
        amount >= 100_000,
    ensures
        price_of(u64::MAX, amount) == u64::MAX,
{
    assert(marginal_price(u64::MAX as int) == 184_467_440_747_095);
    assert(184_467_440_747_095 * (amount as int) > u64::MAX) by (nonlinear_arith)
        requires amount >= 100_000;
    lemma_price_saturates(u64::MAX, amount);
}

} // verus!
