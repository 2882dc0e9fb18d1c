//! Verified core of the pendzl smart-contract building blocks: PSP22 fungible
//! tokens (with metadata, mintable, burnable and vault extensions), ownable,
//! access control, pausable and general vesting.
//!
//! Every module keeps the contract's storage as a plain value and takes what
//! the ink! environment supplies (the caller, the block time, replies of other
//! contracts) as arguments; operations hand back the events to emit.

pub mod math;
pub mod types;
pub mod storage_map;
pub mod token;
pub mod finance;
pub mod access;
pub mod security;
