//! Durable state and derived statistics for a price-oracle feed account.
//!
//! The crate keeps the running cumulative sums from which a time-weighted
//! average price and a downtime ratio can be reconstructed by subtracting two
//! snapshots, derives the outbound message payloads from the account record,
//! and encodes those payloads as discriminator-tagged big-endian byte
//! sequences.

pub mod account;
pub mod cumulative;
pub mod flags;
pub mod info;
pub mod messages;
pub mod pubkey;
pub mod wire;
