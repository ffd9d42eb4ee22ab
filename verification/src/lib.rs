//! Escrow and attestation state machines for intent-based conditional payments.
//!
//! An escrow holds a buyer's funds against the hash of an off-chain intent and
//! pays them out or back on the oracle's instruction. An attestation lets an
//! authority publish a sealed outcome for the same intent, open to audit and
//! challenge. Both are modelled on plain values, so every transition has a
//! contract that says exactly when it succeeds and what it changes.

pub mod attestation;
pub mod escrow;
pub mod keys;
pub mod store;
