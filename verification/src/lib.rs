//! Authority-gated analytics registry.
//!
//! A deployment holds a singleton [`ProtocolConfig`](state::ProtocolConfig)
//! tracking a bounded list of wallets, and an append-only ledger of
//! [`RevenueSnapshot`](state::RevenueSnapshot) records keyed by wallet and
//! timestamp. Every logical entity is mapped to a reproducible storage
//! address derived from a fixed domain tag and the entity's discriminating
//! fields; all mutation after creation is gated to a single authority.

pub mod address;
pub mod error;
pub mod ids;
pub mod laws;
pub mod registry;
pub mod state;
