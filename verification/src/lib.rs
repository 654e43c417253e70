//! Tokenized-vault accounting core.
//!
//! The vault converts a pool of managed reserve ("base") tokens into
//! fungible share ("vault") tokens at a floating exchange rate, and can
//! defer share redemption behind a time-lock with a whitelisted override
//! for liquidations.
//!
//! All amounts are plain `u128` values, timestamps are `u64`, and
//! identities are `String` addresses; the host environment that stores
//! state, validates addresses and settles the emitted mint/burn/transfer
//! instructions sits outside this crate and hands plain values in.

pub mod error;
pub mod keeper;
pub mod lockup;
pub mod msg;
pub mod shares;
pub mod vault;
pub mod whitelist;
