//! A deterministic state-evolution engine for a persistent virtual pet.
//!
//! The engine models time-based stat decay, player actions that modify
//! stats, an experience/leveling progression, a per-owner coin economy,
//! and a one-off cosmetic purchase.  Records live in an injected keyed
//! store; the current time and the caller's identity are explicit
//! arguments of every operation, so the whole engine is a pure state
//! machine over plain values.

pub mod contract;
pub mod laws;
pub mod pet;
pub mod store;
