//! Verified core of an on-chain instruction that mints a collectible NFT:
//! deterministic derivation of the metadata and master-edition addresses,
//! exact construction of the two cross-program invocation payloads, the
//! ordered two-step invocation state machine, and a ledger model stating
//! what one run creates and why a re-run is rejected.

pub mod address;
pub mod handler;
pub mod instructions;
pub mod ledger;
pub mod pda;
