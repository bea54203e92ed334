//! Transactional core of a tokenized real-estate trading platform.
//!
//! The library models the ledger-resident state machines of the platform as
//! explicit data: an escrow fund-custody state machine, a marketplace
//! listing/trade engine, a stateless swap adapter, a mock fungible-asset
//! ledger standing for the asset-transfer gateway, and a nullifier registry.
//! The hosting ledger's ambient services become explicit values: the clock is
//! a timestamp argument, authorization is a set of consenting principals, and
//! per-id storage is a vector owned by each machine. Every operation either
//! applies its whole effect or returns an error and leaves all state
//! unchanged, mirroring the ledger's atomic commit.

pub mod auth;
pub mod errors;
pub mod escrow;
pub mod marketplace;
pub mod swap;
pub mod token;
pub mod zk;
