//! A verified core for a fungible-token airdrop tool: keypair and recipient
//! loading, associated-account derivation, instruction planning, and the
//! orchestration workflows, with the chain reached through a narrow port.

pub mod address;
pub mod cli;
pub mod executor;
pub mod keys;
pub mod lower;
pub mod numbers;
pub mod plan;
pub mod recipients;
