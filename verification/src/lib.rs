//! Peer discovery and bounded handshake for a Bitcoin-style peer-to-peer
//! network.
//!
//! The crate provides:
//! - a fixed registry of DNS seed hostnames and the aggregation of their
//!   resolved peer addresses (`dns_seed_manager`),
//! - the wire-message codec: building, serialising and parsing the Version
//!   and Verack envelopes (`codec`, `network_messages`),
//! - the handshake state machine with its timeout and cancellation rules,
//!   and the ledger of attempted peers (`handshake_manager`),
//! - command-line configuration parsing (`config`).
//!
//! Connection handling, DNS lookups and all other I/O live outside this
//! crate; callers drive the state machine with the events they observe.

pub mod codec;
pub mod config;
pub mod dns_seed_manager;
pub mod handshake_manager;
pub mod network_messages;
pub mod peer;
