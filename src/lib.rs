//! A single-node mock ledger: accounts with balances, transfers between
//! them, a JSON-RPC style request dispatcher, and the block-boundary rule
//! that decides how long a state change waits before it is acknowledged.

pub mod confirmation;
pub mod decimal;
pub mod dispatch;
pub mod ledger;
pub mod rpc;
