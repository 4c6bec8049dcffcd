//! An ERC-20 style fungible-token ledger: balances, allowances and a total
//! supply, with every operation proved to keep the supply equal to the sum of
//! all balances.

pub mod account;
pub mod amount;
pub mod erc20;
mod table;
