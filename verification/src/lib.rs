//! Verified model of the Sequester donations pallet: the bookkeeping that
//! tracks transaction fees block by block, queues a share of them on chain,
//! and moves the queued amount out of the treasury towards Sequester.
pub mod arith;
pub mod types;
pub mod account;
pub mod pallet;
pub mod offchain;
pub mod fees;
pub mod xcm_config;
pub mod laws;
