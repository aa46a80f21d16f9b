//! Fund-custody ledger for milestone-gated crowdfunding.
//!
//! Donors deposit value into a campaign-scoped escrow; the campaign's creator
//! may withdraw only the portion tied to milestones that a verifier has
//! certified complete; donors may be refunded from the same escrow. The crate
//! holds the escrow accounting and authorization state machine: who may move
//! value, how much, under which preconditions, with checked arithmetic
//! throughout. The host ledger's storage, signing and transport are the
//! caller's concern; every operation here is a pure step on plain values that
//! the caller applies atomically.

pub mod errors;
pub mod events;
pub mod ledger;
pub mod lifecycle;
pub mod state;
