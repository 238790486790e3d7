//! Why an operation on a pool was refused.
use vstd::prelude::*;

verus! {

/// The reasons for which a token creation or a trade is refused. A refused
/// operation changes no state and moves no value.
#[derive(Clone, Copy, Debug, PartialEq, Eq, Structural)]
pub enum TokenixError {
    /// The token's name is longer than 30 characters.
    NameTooLong,
    /// The token's symbol is longer than 10 characters.
    SymbolTooLong,
    /// The requested supply is not the fixed total supply.
    InvalidInitialSupply,
    /// The buyer's native-currency balance does not cover the cost.
    InsufficientFunds,
    /// The trade asks for more token units than the reserve holds.
    InsufficientReserve,
    /// The tokens handed back would raise the reserve above the total supply,
    /// so the seller cannot hold them.
    SupplyExceeded,
    /// The pool's native-currency balance does not cover the payout.
    InsufficientPoolFunds,
}

} // verus!
