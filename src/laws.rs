//! Properties of a purchase followed by a sale of the same amount.
use vstd::prelude::*;

use crate::curve::{lemma_marginal_price_monotonic, lemma_price_monotonic_in_supply, marginal_price, price_of};
use crate::error::TokenixError;
use crate::pool::{after_buy, after_sell, buy_result, sell_result, BuyToken, Pool, SellToken};

verus! {

/// Buying `amount` units and then selling the same amount back leaves the
/// reserve as it was, and the pool's identity untouched; the display price is
/// then the price of one unit at that reserve.
pub proof fn lemma_buy_then_sell_restores_reserve(
    p: Pool,
    buyer_balance: u64,
    pool_balance: u64,
    amount: u64,
)
    requires
        buy_result(p, buyer_balance, amount) is Ok,
        sell_result(after_buy(p, amount), pool_balance, amount) is Ok,
    ensures
        after_sell(after_buy(p, amount), amount).total_supply == p.total_supply,
        after_sell(after_buy(p, amount), amount).current_price == price_of(p.total_supply, 1),
        after_sell(after_buy(p, amount), amount).mint == p.mint,
        after_sell(after_buy(p, amount), amount).token_account == p.token_account,
{
}

/// Buying `amount` units at reserve `r` and selling them straight back never
/// pays out more than the purchase cost: the sale is priced at reserve
/// `r - 2 * amount`, the purchase at `r`. Where the cost does not saturate,
/// the seller is short by exactly `amount` times the drop in marginal price
/// between those two reserves. The sale goes through whenever the pool is
/// well formed, twice the amount fits in the reserve, and the pool holds at
/// least the cost just paid.
pub proof fn lemma_buy_then_sell_currency(p: Pool, buyer_balance: u64, pool_balance: u64, amount: u64)
    requires
        buy_result(p, buyer_balance, amount) is Ok,
    ensures
        buy_result(p, buyer_balance, amount) == Ok::<BuyToken, TokenixError>(
            BuyToken { cost: price_of(p.total_supply, amount), amount },
        ),
        sell_result(after_buy(p, amount), pool_balance, amount) is Ok ==> sell_result(
            after_buy(p, amount),
            pool_balance,
            amount,
        ) == Ok::<SellToken, TokenixError>(
            SellToken { payout: price_of((p.total_supply - 2 * amount) as u64, amount), amount },
        ),
        sell_result(after_buy(p, amount), pool_balance, amount) is Ok ==> price_of(
            (p.total_supply - 2 * amount) as u64,
            amount,
        ) <= price_of(p.total_supply, amount),
        sell_result(after_buy(p, amount), pool_balance, amount) is Ok && marginal_price(
            p.total_supply as int,
        ) * amount <= u64::MAX ==> price_of(p.total_supply, amount) - price_of(
            (p.total_supply - 2 * amount) as u64,
            amount,
        ) == amount * (marginal_price(p.total_supply as int) - marginal_price(
            p.total_supply - 2 * amount,
        )),
        p.wf() && 2 * amount <= p.total_supply && pool_balance >= price_of(p.total_supply, amount)
            ==> sell_result(after_buy(p, amount), pool_balance, amount) is Ok,
{
    let r = p.total_supply;
    if 2 * amount <= r {
        let low = (r - 2 * amount) as u64;
        lemma_price_monotonic_in_supply(low, r, amount);
        lemma_marginal_price_monotonic(low as int, r as int);
        let m1 = marginal_price(low as int);
        let m2 = marginal_price(r as int);
        assert(m1 * amount <= m2 * amount) by (nonlinear_arith)
            requires m1 <= m2, 0 <= amount;
        assert(m2 * amount - m1 * amount == amount * (m2 - m1)) by (nonlinear_arith);
    }
}

} // verus!
