//! Verified core of a ledger-resident payment splitter: a streamer registers
//! a payout profile (fee recipient, fee rate in basis points, accepted-asset
//! whitelist), donors tip in a whitelisted asset, and each tip is split
//! between the streamer and the platform, with a deterministic, content-derived
//! donation identifier and a structured receipt event.
//!
//! The host ledger's capabilities (persistent storage, authorization checks,
//! asset transfers, the clock, event publication) are consumed, not modeled:
//! state lives in an explicit [`contract::TipStreamers`] handle, the
//! authenticated caller and the ledger timestamp are passed in as values, and
//! a successful tip returns the transfers to perform and the event to publish.

pub mod contract;
pub mod donation;
pub mod encode;
pub mod errors;
pub mod fee;
pub mod ident;
pub mod whitelist;
