//! Resilient transaction submission and fund-circulation planning for
//! load generation against an EVM-compatible chain.
//!
//! Every decision the load generator takes (retries, gas-price and nonce
//! correction, batching, work partitioning, tracking of a circulating fund)
//! lives here as a verified state machine or pure function. Talking to the
//! chain is left to the caller, which performs the requested actions and
//! feeds the observed results back.
use vstd::prelude::*;

pub mod gas;
pub mod request;
pub mod classify;
pub mod transaction_manager;
pub mod circular;
pub mod calldata;
pub mod wallet;
pub mod batch_funder;
pub mod load_pool;
pub mod patterns;
pub mod monitor;

verus! {

} // verus!
