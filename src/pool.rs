//! The pool record and its transitions: token creation, pool creation, buy
//! and sell. Each transition returns the transfers that the host must carry
//! out together with the new state, all of them or none.
use vstd::prelude::*;
use vstd::string::StrSliceExecFns;

use crate::curve::{calculate_price, price_of};
use crate::error::TokenixError;

verus! {

/// The fixed total supply: 100,000,000 whole tokens at 9 decimal places.
pub const INITIAL_SUPPLY: u64 = 100_000_000_000_000_000;

/// Longest accepted token name, in characters.
pub const MAX_NAME_LEN: usize = 30;

/// Longest accepted token symbol, in characters.
pub const MAX_SYMBOL_LEN: usize = 10;

/// The persisted state of a pool.
#[derive(Clone, Copy, Debug, PartialEq, Eq)]
pub struct Pool {
    /// Address of the token that the pool prices.
    pub mint: [u8; 32],
    /// Address of the vault account that holds the reserve.
    pub token_account: [u8; 32],
    /// Cost of one token unit at the reserve as last written; a display value.
    pub current_price: u64,
    /// Token units held in the vault (the reserve size).
    pub total_supply: u64,
}

impl Pool {
    /// The reserve never exceeds the total supply.
    pub open spec fn wf(&self) -> bool {
        self.total_supply <= INITIAL_SUPPLY
    }
}

/// A token creation that was accepted: mint `mint_amount` units into the
/// creator's token account.
#[derive(Clone, Copy, Debug, PartialEq, Eq, Structural)]
pub struct CreateToken {
    pub mint_amount: u64,
}

/// A new pool, and the token units to move from the creator into its vault.
#[derive(Clone, Copy, Debug, PartialEq, Eq)]
pub struct CreatePool {
    pub pool: Pool,
    pub deposit: u64,
}

/// An accepted purchase: the buyer pays `cost` native-currency units to the
/// pool, and the vault sends `amount` token units to the buyer.
#[derive(Clone, Copy, Debug, PartialEq, Eq, Structural)]
pub struct BuyToken {
    pub cost: u64,
    pub amount: u64,
}

/// An accepted sale: the seller sends `amount` token units to the vault, and
/// the pool pays `payout` native-currency units to the seller.
#[derive(Clone, Copy, Debug, PartialEq, Eq, Structural)]
pub struct SellToken {
    pub payout: u64,
    pub amount: u64,
}

/// The outcome of a token creation request.
pub open spec fn create_token_result(
    name_len: nat,
    symbol_len: nat,
    initial_supply: u64,
) -> Result<CreateToken, TokenixError> {
    if name_len > MAX_NAME_LEN {
        Err(TokenixError::NameTooLong)
    } else if symbol_len > MAX_SYMBOL_LEN {
        Err(TokenixError::SymbolTooLong)
    } else if initial_supply != INITIAL_SUPPLY {
        Err(TokenixError::InvalidInitialSupply)
    } else {
        Ok(CreateToken { mint_amount: initial_supply })
    }
}

/// The outcome of a purchase of `amount` units by a buyer holding
/// `buyer_balance`: priced at the reserve before the trade.
pub open spec fn buy_result(p: Pool, buyer_balance: u64, amount: u64) -> Result<BuyToken, TokenixError> {
    let cost = price_of(p.total_supply, amount);
    if buyer_balance < cost {
        Err(TokenixError::InsufficientFunds)
    } else if amount > p.total_supply {
        Err(TokenixError::InsufficientReserve)
    } else {
        Ok(BuyToken { cost, amount })
    }
}

/// The pool after an accepted purchase of `amount` units.
pub open spec fn after_buy(p: Pool, amount: u64) -> Pool {
    let supply = (p.total_supply - amount) as u64;
    Pool { current_price: price_of(supply, 1), total_supply: supply, ..p }
}

/// The outcome of a sale of `amount` units, with the pool holding
/// `pool_balance` native-currency units: priced at the reserve less the
/// amount sold.
pub open spec fn sell_result(p: Pool, pool_balance: u64, amount: u64) -> Result<SellToken, TokenixError> {
    if amount > p.total_supply {
        Err(TokenixError::InsufficientReserve)
    } else if p.total_supply + amount > INITIAL_SUPPLY {
        Err(TokenixError::SupplyExceeded)
    } else if pool_balance < price_of((p.total_supply - amount) as u64, amount) {
        Err(TokenixError::InsufficientPoolFunds)
    } else {
        Ok(SellToken { payout: price_of((p.total_supply - amount) as u64, amount), amount })
    }
}

/// The pool after an accepted sale of `amount` units.
pub open spec fn after_sell(p: Pool, amount: u64) -> Pool {
    let supply = (p.total_supply + amount) as u64;
    Pool { current_price: price_of(supply, 1), total_supply: supply, ..p }
}

/// Accepts a token creation when the name and symbol are short enough and the
/// supply is the fixed total; the whole supply is then minted to the creator.
/// Lengths are counted in characters. The metadata URI plays no part.
pub fn create_token(
    name: &str,
    symbol: &str,
    uri: &str,
    initial_supply: u64,
) -> (r: Result<CreateToken, TokenixError>)
    ensures
        r == create_token_result(name@.len(), symbol@.len(), initial_supply),
        r is Ok <==> name@.len() <= MAX_NAME_LEN && symbol@.len() <= MAX_SYMBOL_LEN
            && initial_supply == INITIAL_SUPPLY,
{
    if name.unicode_len() > MAX_NAME_LEN {
        return Err(TokenixError::NameTooLong);
    }
    if symbol.unicode_len() > MAX_SYMBOL_LEN {
        return Err(TokenixError::SymbolTooLong);
    }
    if initial_supply != INITIAL_SUPPLY {
        return Err(TokenixError::InvalidInitialSupply);
    }
    Ok(CreateToken { mint_amount: initial_supply })
}

/// Creates the pool of token `mint` with vault `pool_token_account`: the
/// reserve is the whole supply, which the creator deposits into the vault.
/// `initial_price` is kept for display only.
pub fn create_pool(mint: [u8; 32], pool_token_account: [u8; 32], initial_price: u64) -> (r: CreatePool)
    ensures
        r.pool == (Pool {
            mint,
            token_account: pool_token_account,
            current_price: initial_price,
            total_supply: INITIAL_SUPPLY,
        }),
        r.deposit == INITIAL_SUPPLY,
        r.pool.wf(),
{
    let pool = Pool {
        mint,
        token_account: pool_token_account,
        current_price: initial_price,
        total_supply: INITIAL_SUPPLY,
    };
    CreatePool { pool, deposit: pool.total_supply }
}

/// Cost of buying `amount` units from `pool`, at its current reserve.
pub fn calculate_buy_price(pool: &Pool, amount: u64) -> (r: u64)
    ensures
        r == price_of(pool.total_supply, amount),
{
    calculate_price(pool.total_supply, amount)
}

/// Payout for selling `amount` units to `pool`, priced at the reserve less
/// the amount; refused when the amount exceeds the reserve.
pub fn calculate_sell_price(pool: &Pool, amount: u64) -> (r: Result<u64, TokenixError>)
    ensures
        amount <= pool.total_supply ==> r == Ok::<u64, TokenixError>(
            price_of((pool.total_supply - amount) as u64, amount),
        ),
        amount > pool.total_supply ==> r == Err::<u64, TokenixError>(
            TokenixError::InsufficientReserve,
        ),
{
    match pool.total_supply.checked_sub(amount) {
        Some(remaining) => Ok(calculate_price(remaining, amount)),
        None => Err(TokenixError::InsufficientReserve),
    }
}

/// Buys `amount` units from `pool` for a buyer whose native-currency balance
/// is `buyer_balance`. The cost is priced at the reserve before the trade.
/// On success the reserve falls by `amount`, the display price is set to the
/// price of one unit at the new reserve, and the transfers to carry out are
/// returned; on failure the pool is left as it was and nothing moves.
pub fn buy_token(pool: &mut Pool, buyer_balance: u64, amount: u64) -> (r: Result<BuyToken, TokenixError>)
    ensures
        r == buy_result(*old(pool), buyer_balance, amount),
        r is Ok ==> *final(pool) == after_buy(*old(pool), amount),
        r is Ok ==> r->Ok_0.amount == amount && final(pool).total_supply + r->Ok_0.amount
            == old(pool).total_supply,
        r is Err ==> *final(pool) == *old(pool),
        buyer_balance < price_of(old(pool).total_supply, amount) ==> r == Err::<BuyToken, TokenixError>(
            TokenixError::InsufficientFunds,
        ),
        old(pool).wf() ==> final(pool).wf(),
{
    let cost = calculate_price(pool.total_supply, amount);
    if buyer_balance < cost {
        return Err(TokenixError::InsufficientFunds);
    }
    if amount > pool.total_supply {
        return Err(TokenixError::InsufficientReserve);
    }
    pool.total_supply = pool.total_supply - amount;
    pool.current_price = calculate_price(pool.total_supply, 1);
    Ok(BuyToken { cost, amount })
}

/// Sells `amount` units to `pool`, which holds `pool_balance` native-currency
/// units. The payout is priced at the reserve less `amount`. Refused when
/// `amount` exceeds the reserve, when the reserve would exceed the total
/// supply, or when the pool cannot cover the payout. On success the reserve
/// grows by `amount` and the display price is set to the price of one unit at
/// the new reserve; on failure the pool is left as it was and nothing moves.
pub fn sell_token(pool: &mut Pool, pool_balance: u64, amount: u64) -> (r: Result<SellToken, TokenixError>)
    ensures
        r == sell_result(*old(pool), pool_balance, amount),
        r is Ok ==> *final(pool) == after_sell(*old(pool), amount),
        r is Ok ==> r->Ok_0.amount == amount && final(pool).total_supply == old(pool).total_supply
            + r->Ok_0.amount,
        r is Err ==> *final(pool) == *old(pool),
        amount > old(pool).total_supply ==> r == Err::<SellToken, TokenixError>(
            TokenixError::InsufficientReserve,
        ),
        old(pool).wf() ==> final(pool).wf(),
{
    let payout = match calculate_sell_price(pool, amount) {
        Ok(p) => p,
        Err(e) => {
            return Err(e);
        },
    };
    if amount > INITIAL_SUPPLY || pool.total_supply > INITIAL_SUPPLY - amount {
        return Err(TokenixError::SupplyExceeded);
    }
    if pool_balance < payout {
        return Err(TokenixError::InsufficientPoolFunds);
    }
    pool.total_supply = pool.total_supply + amount;
    pool.current_price = calculate_price(pool.total_supply, 1);
    Ok(SellToken { payout, amount })
}

} // verus!
