use vstd::prelude::*;

verus! {

/// An account identity on the host ledger, reduced to the plain value this
/// core compares and stores: creator identities, donor identities, campaign
/// addresses and escrow addresses.
#[derive(Clone, Copy, Debug, PartialEq, Eq, Structural)]
pub struct Pubkey {
    pub id: u64,
}

/// A value-bearing account as the ledger accessor presents it to one atomic
/// transaction: its address and its current balance in lamports.
#[derive(Clone, Copy, Debug, PartialEq, Eq, Structural)]
pub struct LedgerAccount {
    pub key: Pubkey,
    pub lamports: u64,
}

/// A sub-goal of a campaign, identified by its position in the campaign's
/// milestone list. Title, description and amount are fixed at append time;
/// `completed` moves only from `false` to `true`, and `verification_proof`
/// is overwritten by each verification.
#[derive(Clone, Debug)]
pub struct Milestone {
    pub title: String,
    pub description: String,
    pub amount: u64,
    pub completed: bool,
    pub verification_proof: String,
}

/// Mathematical model of a [`Milestone`]: the same record over sequences of
/// characters.
#[verifier::ext_equal]
pub ghost struct MilestoneView {
    pub title: Seq<char>,
    pub description: Seq<char>,
    pub amount: u64,
    pub completed: bool,
    pub verification_proof: Seq<char>,
}

impl View for Milestone {
    type V = MilestoneView;

    open spec fn view(&self) -> MilestoneView {
        MilestoneView {
            title: self.title@,
            description: self.description@,
            amount: self.amount,
            completed: self.completed,
            verification_proof: self.verification_proof@,
        }
    }
}

/// The canonical record of one fundraising effort: creator, descriptive
/// text, goal, donations counted to date, and the ordered, append-only
/// milestone list. `escrow_account` names the paired escrow account and is
/// used only for cross-checking; `is_completed` is set to `false` at
/// creation and no operation ever changes it.
#[derive(Clone, Debug)]
pub struct Campaign {
    pub creator: Pubkey,
    pub title: String,
    pub description: String,
    pub image_url: String,
    pub amount_goal: u64,
    pub amount_donated: u64,
    pub milestones: Vec<Milestone>,
    pub is_completed: bool,
    pub escrow_account: Pubkey,
}

/// Mathematical model of a [`Campaign`].
#[verifier::ext_equal]
pub ghost struct CampaignView {
    pub creator: Pubkey,
    pub title: Seq<char>,
    pub description: Seq<char>,
    pub image_url: Seq<char>,
    pub amount_goal: u64,
    pub amount_donated: u64,
    pub milestones: Seq<MilestoneView>,
    pub is_completed: bool,
    pub escrow_account: Pubkey,
}

impl View for Campaign {
    type V = CampaignView;

    open spec fn view(&self) -> CampaignView {
        CampaignView {
            creator: self.creator,
            title: self.title@,
            description: self.description@,
            image_url: self.image_url@,
            amount_goal: self.amount_goal,
            amount_donated: self.amount_donated,
            milestones: self.milestones@.map_values(|m: Milestone| m@),
            is_completed: self.is_completed,
            escrow_account: self.escrow_account,
        }
    }
}

/// The escrow record paired one-to-one with a campaign. It holds only a
/// back-pointer to its campaign's address, for identity cross-checking; the
/// balance it guards lives on the ledger account at the escrow's address.
#[derive(Clone, Copy, Debug, PartialEq, Eq, Structural)]
pub struct Escrow {
    pub campaign: Pubkey,
}

} // verus!
