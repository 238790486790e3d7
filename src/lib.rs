//! A bonding-curve pool: one fungible token bought from and sold back to a
//! shared reserve, at a price set by the reserve's remaining size.
pub mod curve;
pub mod error;
pub mod laws;
pub mod pool;

pub use curve::{calculate_price, BASE_PRICE, LAMPORTS_PER_SOL};
pub use error::TokenixError;
pub use pool::{
    buy_token, calculate_buy_price, calculate_sell_price, create_pool, create_token, sell_token,
    BuyToken, CreatePool, CreateToken, Pool, SellToken, INITIAL_SUPPLY, MAX_NAME_LEN, MAX_SYMBOL_LEN,
};
