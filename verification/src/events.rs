use crate::state::Pubkey;
use vstd::prelude::*;

verus! {

/// Emitted once by a successful campaign creation.
#[derive(Clone, Debug)]
pub struct CampaignCreatedEvent {
    pub campaign: Pubkey,
    pub creator: Pubkey,
    pub title: String,
    pub amount_goal: u64,
}

/// Emitted once by a successful milestone append; `milestone_index` is the
/// position the new milestone received.
#[derive(Clone, Debug)]
pub struct MilestoneAddedEvent {
    pub campaign: Pubkey,
    pub milestone_index: u8,
    pub title: String,
    pub amount: u64,
}

/// Emitted once by a successful donation.
#[derive(Clone, Copy, Debug, PartialEq, Eq, Structural)]
pub struct DonationEvent {
    pub campaign: Pubkey,
    pub donor: Pubkey,
    pub amount: u64,
    pub timestamp: i64,
}

/// Emitted once by a successful milestone verification.
#[derive(Clone, Copy, Debug, PartialEq, Eq, Structural)]
pub struct MilestoneVerifiedEvent {
    pub campaign: Pubkey,
    pub milestone_index: u8,
    pub verifier: Pubkey,
    pub timestamp: i64,
}

/// Emitted once by a successful release of a verified milestone's amount.
#[derive(Clone, Copy, Debug, PartialEq, Eq, Structural)]
pub struct FundsReleasedEvent {
    pub campaign: Pubkey,
    pub milestone_index: u8,
    pub amount: u64,
    pub recipient: Pubkey,
    pub timestamp: i64,
}

/// Emitted once by a successful refund.
#[derive(Clone, Copy, Debug, PartialEq, Eq, Structural)]
pub struct RefundEvent {
    pub campaign: Pubkey,
    pub donor: Pubkey,
    pub amount: u64,
    pub timestamp: i64,
}

} // verus!
