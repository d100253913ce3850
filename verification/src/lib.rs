//! Trade submission and confirmation engine.
//!
//! Given an already-decided token purchase, this library computes the
//! slippage-protected minimum output, derives priority-fee and relay-tip
//! amounts, lays out the submission plan (direct broadcast or a private
//! relay bundle), and decides the bounded confirmation wait. All network,
//! signing and serialization work is left to the embedding program; the
//! functions here are pure decisions over plain values, each with a
//! verified contract.

pub mod address;
pub mod amount;
pub mod clock;
pub mod config;
pub mod errors;
pub mod fees;
pub mod numeric;
pub mod plan;
pub mod poller;
pub mod request;
pub mod slippage;
