//! Settlement and accounting core of a binary-outcome prediction market.
//!
//! A [`market::Market`] collects stakes on "Yes" and "No" until it expires, is
//! then resolved by its admin (or cancelled), and each winner withdraws a share
//! of the whole pool proportional to their stake on the winning side.
//! Custody of the staked tokens, signatures and the clock stay outside: every
//! operation here takes the verified caller's key and the current time as
//! plain values.

pub mod errors;
pub mod keys;
pub mod market;
pub mod position;
pub mod digest;
pub mod instructions;
pub mod laws;
