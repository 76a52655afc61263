//! A resilient JSON-RPC client core for a blockchain node, and a crawler that
//! recovers the NFT metadata of a wallet's token accounts.
//!
//! The transport's decisions (request ids, rate-limit retries, error
//! classification, usage counters) and the crawl's (which accounts are NFT
//! candidates, where their metadata lives, how it is laid out and encoded)
//! are verified here; the caller performs the network calls and hands back
//! what came of them.
use vstd::prelude::*;

pub mod address;
pub mod codec;
pub mod crawler;
pub mod error;
pub mod metadata;
pub mod stats;
pub mod transport;

verus! {

} // verus!
