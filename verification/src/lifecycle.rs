use crate::errors::ErrorCode;
use crate::events::CampaignCreatedEvent;
use crate::events::DonationEvent;
use crate::events::FundsReleasedEvent;
use crate::events::MilestoneAddedEvent;
use crate::events::MilestoneVerifiedEvent;
use crate::events::RefundEvent;
use crate::ledger::transfer_lamports;
use crate::state::Campaign;
use crate::state::CampaignView;
use crate::state::Escrow;
use crate::state::LedgerAccount;
use crate::state::Milestone;
use crate::state::MilestoneView;
use crate::state::Pubkey;
use vstd::prelude::*;

verus! {

// ---------------------------------------------------------------------------
// Accounts each operation touches
// ---------------------------------------------------------------------------
/// Accounts for [`create_campaign`]: the addresses chosen for the two
/// records being provisioned, and the creator's identity.
pub struct CreateCampaign {
    pub campaign: Pubkey,
    pub escrow: Pubkey,
    pub creator: Pubkey,
}

/// Accounts for [`add_milestone`]: the campaign record, its address, and
/// the identity of the caller claiming to be the creator.
pub struct AddMilestone {
    pub campaign: Campaign,
    pub campaign_key: Pubkey,
    pub creator: Pubkey,
}

/// Accounts for [`donate`]: the campaign record, its address, the paired
/// escrow account and the donor's account.
pub struct Donate {
    pub campaign: Campaign,
    pub campaign_key: Pubkey,
    pub escrow: LedgerAccount,
    pub donor: LedgerAccount,
}

/// Accounts for [`verify_milestone`]: the campaign record, its address,
/// and the verifier's identity.
pub struct VerifyMilestone {
    pub campaign: Campaign,
    pub campaign_key: Pubkey,
    pub verifier: Pubkey,
}

/// Accounts for [`release_funds`]: the campaign record, its address, the
/// paired escrow account and the creator's account.
pub struct ReleaseFunds {
    pub campaign: Campaign,
    pub campaign_key: Pubkey,
    pub escrow: LedgerAccount,
    pub creator: LedgerAccount,
}

/// Accounts for [`refund`]: the campaign record, its address, the paired
/// escrow account and the account of the donor being refunded.
pub struct Refund {
    pub campaign: Campaign,
    pub campaign_key: Pubkey,
    pub escrow: LedgerAccount,
    pub donor: LedgerAccount,
}

// ---------------------------------------------------------------------------
// The state machine's transitions, as functions on campaign models
// ---------------------------------------------------------------------------
/// The campaign model as `create_campaign` allocates it: no donations, no
/// milestones, not completed.
pub open spec fn fresh_campaign(
    creator: Pubkey,
    title: Seq<char>,
    description: Seq<char>,
    image_url: Seq<char>,
    amount_goal: u64,
    escrow_account: Pubkey,
) -> CampaignView {
    CampaignView {
        creator,
        title,
        description,
        image_url,
        amount_goal,
        amount_donated: 0,
        milestones: Seq::empty(),
        is_completed: false,
        escrow_account,
    }
}

/// The milestone model as `add_milestone` appends it: unverified, with an
/// empty proof.
pub open spec fn fresh_milestone(title: Seq<char>, description: Seq<char>, amount: u64) -> MilestoneView {
    MilestoneView { title, description, amount, completed: false, verification_proof: Seq::empty() }
}

/// The campaign model after appending one fresh milestone.
pub open spec fn with_new_milestone(
    c: CampaignView,
    title: Seq<char>,
    description: Seq<char>,
    amount: u64,
) -> CampaignView {
    CampaignView { milestones: c.milestones.push(fresh_milestone(title, description, amount)), ..c }
}

/// The campaign model after verifying the milestone at `i`: its proof is
/// overwritten with `proof` and it is marked completed; every other field
/// and every other milestone is unchanged.
pub open spec fn with_verified_milestone(c: CampaignView, i: int, proof: Seq<char>) -> CampaignView {
    CampaignView {
        milestones: c.milestones.update(
            i,
            MilestoneView { completed: true, verification_proof: proof, ..c.milestones[i] },
        ),
        ..c
    }
}

/// The campaign model after counting a donation of `amount`.
pub open spec fn with_donation(c: CampaignView, amount: u64) -> CampaignView {
    CampaignView { amount_donated: (c.amount_donated + amount) as u64, ..c }
}

/// The campaign model after deducting a refund of `amount` from the
/// donation counter.
pub open spec fn with_refund(c: CampaignView, amount: u64) -> CampaignView {
    CampaignView { amount_donated: (c.amount_donated - amount) as u64, ..c }
}

// ---------------------------------------------------------------------------
// Operations
// ---------------------------------------------------------------------------
/// Allocates a campaign and its paired escrow record in one step. The
/// campaign starts with no donations and no milestones; the escrow's
/// back-pointer names the campaign's address. Emits one
/// `CampaignCreatedEvent`. This operation has no failure path of its own:
/// provisioning the records is the host's concern.
pub fn create_campaign(
    ctx: &CreateCampaign,
    title: String,
    description: String,
    image_url: String,
    amount_goal: u64,
) -> (r: (Campaign, Escrow, CampaignCreatedEvent))
    ensures
        r.0@ == fresh_campaign(ctx.creator, title@, description@, image_url@, amount_goal, ctx.escrow),
        r.1 == (Escrow { campaign: ctx.campaign }),
        r.2.campaign == ctx.campaign,
        r.2.creator == ctx.creator,
        r.2.title@ == title@,
        r.2.amount_goal == amount_goal,
{
    let event_title = title.clone();
    let campaign = Campaign {
        creator: ctx.creator,
        title,
        description,
        image_url,
        amount_goal,
        amount_donated: 0,
        milestones: Vec::new(),
        is_completed: false,
        escrow_account: ctx.escrow,
    };
    let escrow = Escrow { campaign: ctx.campaign };
    let event = CampaignCreatedEvent {
        campaign: ctx.campaign,
        creator: ctx.creator,
        title: event_title,
        amount_goal,
    };
    proof {
        assert(campaign@.milestones =~= Seq::<MilestoneView>::empty());
        assert(campaign@ =~= fresh_campaign(
            ctx.creator,
            campaign.title@,
            campaign.description@,
            campaign.image_url@,
            amount_goal,
            ctx.escrow,
        ));
    }
    (campaign, escrow, event)
}

/// Appends one milestone to the campaign, unverified and with an empty
/// proof, provided the caller is the campaign's creator; any other caller
/// fails with `Unauthorized` and changes nothing. Emits one
/// `MilestoneAddedEvent` carrying the new milestone's index, `len - 1`
/// after the append. The index is reported as a `u8`, which caps the
/// addressable milestone list at 256 entries; the host's storage budget
/// for the campaign record is the operative bound below that.
pub fn add_milestone(ctx: &mut AddMilestone, title: String, description: String, amount: u64) -> (r:
    Result<MilestoneAddedEvent, ErrorCode>)
    requires
        old(ctx).campaign@.milestones.len() < 256,
    ensures
        r is Ok <==> old(ctx).creator == old(ctx).campaign.creator,
        r is Err ==> r == Err::<MilestoneAddedEvent, ErrorCode>(ErrorCode::Unauthorized)
            && final(ctx).campaign@ == old(ctx).campaign@,
        r is Ok ==> final(ctx).campaign@ == with_new_milestone(
            old(ctx).campaign@,
            title@,
            description@,
            amount,
        ),
        r matches Ok(ev) ==> ev.campaign == old(ctx).campaign_key && ev.milestone_index
            as int == old(ctx).campaign@.milestones.len() && ev.title@ == title@ && ev.amount
            == amount,
        final(ctx).campaign_key == old(ctx).campaign_key,
        final(ctx).creator == old(ctx).creator,
{
    if ctx.campaign.creator != ctx.creator {
        return Err(ErrorCode::Unauthorized);
    }
    let event_title = title.clone();
    let milestone = Milestone {
        title,
        description,
        amount,
        completed: false,
        verification_proof: String::new(),
    };
    ctx.campaign.milestones.push(milestone);
    let index: u8 = (ctx.campaign.milestones.len() - 1) as u8;
    proof {
        assert(ctx.campaign@.milestones =~= old(ctx).campaign@.milestones.push(
            fresh_milestone(title@, description@, amount),
        ));
        assert(ctx.campaign@ =~= with_new_milestone(old(ctx).campaign@, title@, description@, amount));
    }
    Ok(MilestoneAddedEvent {
        campaign: ctx.campaign_key,
        milestone_index: index,
        title: event_title,
        amount,
    })
}

/// Counts a donation: moves `amount` from the donor's account to the
/// campaign's escrow account and raises `amount_donated` by the same
/// amount, all or nothing. A donor balance below `amount` fails with
/// `InsufficientFunds` (the transfer primitive refuses the debit); an
/// overflow of the escrow balance or of `amount_donated` fails with
/// `AmountOverflow`. No donation bound is enforced: `amount == 0` is
/// accepted, and donations past `amount_goal` are accepted. Emits one
/// `DonationEvent` with the caller-supplied timestamp.
pub fn donate(ctx: &mut Donate, amount: u64, timestamp: i64) -> (r: Result<
    DonationEvent,
    ErrorCode,
>)
    requires
        old(ctx).escrow.key == old(ctx).campaign.escrow_account,
    ensures
        r is Ok <==> old(ctx).donor.lamports >= amount && old(ctx).escrow.lamports + amount
            <= u64::MAX && old(ctx).campaign@.amount_donated + amount <= u64::MAX,
        old(ctx).donor.lamports < amount ==> r == Err::<DonationEvent, ErrorCode>(
            ErrorCode::InsufficientFunds,
        ),
        old(ctx).donor.lamports >= amount && (old(ctx).escrow.lamports + amount > u64::MAX
            || old(ctx).campaign@.amount_donated + amount > u64::MAX) ==> r == Err::<
            DonationEvent,
            ErrorCode,
        >(ErrorCode::AmountOverflow),
        r is Ok ==> final(ctx).campaign@ == with_donation(old(ctx).campaign@, amount)
            && final(ctx).escrow == (LedgerAccount {
            lamports: (old(ctx).escrow.lamports + amount) as u64,
            ..old(ctx).escrow
        }) && final(ctx).donor == (LedgerAccount {
            lamports: (old(ctx).donor.lamports - amount) as u64,
            ..old(ctx).donor
        }) && r == Ok::<DonationEvent, ErrorCode>(DonationEvent {
            campaign: old(ctx).campaign_key,
            donor: old(ctx).donor.key,
            amount,
            timestamp,
        }),
        r is Err ==> final(ctx).campaign@ == old(ctx).campaign@
            && final(ctx).escrow == old(ctx).escrow && final(ctx).donor == old(ctx).donor,
        final(ctx).escrow.lamports + final(ctx).donor.lamports
            == old(ctx).escrow.lamports + old(ctx).donor.lamports,
        final(ctx).campaign_key == old(ctx).campaign_key,
{
    if ctx.donor.lamports < amount {
        return Err(ErrorCode::InsufficientFunds);
    }
    if amount > u64::MAX - ctx.escrow.lamports {
        return Err(ErrorCode::AmountOverflow);
    }
    if amount > u64::MAX - ctx.campaign.amount_donated {
        return Err(ErrorCode::AmountOverflow);
    }
    match transfer_lamports(&mut ctx.donor, &mut ctx.escrow, amount) {
        Ok(()) => {},
        Err(e) => {
            return Err(e);
        },
    }
    ctx.campaign.amount_donated = ctx.campaign.amount_donated + amount;
    proof {
        assert(ctx.campaign@ =~= with_donation(old(ctx).campaign@, amount));
    }
    Ok(DonationEvent { campaign: ctx.campaign_key, donor: ctx.donor.key, amount, timestamp })
}

/// Certifies the milestone at `milestone_index`: overwrites its proof with
/// the supplied one and marks it completed. Re-verification is not an
/// error: an already-completed milestone stays completed and only its
/// proof is replaced. An index at or past the end of the list fails with
/// `InvalidMilestoneIndex` and changes nothing. No identity check
/// restricts who may verify: the verifier role is enforced at the host's
/// call-site boundary, not here. Emits one `MilestoneVerifiedEvent`.
pub fn verify_milestone(
    ctx: &mut VerifyMilestone,
    milestone_index: u8,
    proof: String,
    timestamp: i64,
) -> (r: Result<MilestoneVerifiedEvent, ErrorCode>)
    ensures
        r is Ok <==> (milestone_index as int) < old(ctx).campaign@.milestones.len(),
        (milestone_index as int) >= old(ctx).campaign@.milestones.len() ==> r == Err::<
            MilestoneVerifiedEvent,
            ErrorCode,
        >(ErrorCode::InvalidMilestoneIndex) && final(ctx).campaign@ == old(ctx).campaign@,
        r is Ok ==> final(ctx).campaign@ == with_verified_milestone(
            old(ctx).campaign@,
            milestone_index as int,
            proof@,
        ) && r == Ok::<MilestoneVerifiedEvent, ErrorCode>(MilestoneVerifiedEvent {
            campaign: old(ctx).campaign_key,
            milestone_index,
            verifier: old(ctx).verifier,
            timestamp,
        }),
        final(ctx).campaign_key == old(ctx).campaign_key,
        final(ctx).verifier == old(ctx).verifier,
{
    let idx = milestone_index as usize;
    if idx >= ctx.campaign.milestones.len() {
        return Err(ErrorCode::InvalidMilestoneIndex);
    }
    let milestone = &mut ctx.campaign.milestones[idx];
    milestone.verification_proof = proof;
    milestone.completed = true;
    proof {
        assert(ctx.campaign@.milestones =~= with_verified_milestone(
            old(ctx).campaign@,
            milestone_index as int,
            proof@,
        ).milestones);
        assert(ctx.campaign@ =~= with_verified_milestone(
            old(ctx).campaign@,
            milestone_index as int,
            proof@,
        ));
    }
    Ok(MilestoneVerifiedEvent {
        campaign: ctx.campaign_key,
        milestone_index,
        verifier: ctx.verifier,
        timestamp,
    })
}

/// Pays out one verified milestone: moves the milestone's amount from the
/// escrow account to the creator's account, all or nothing, and leaves the
/// campaign record untouched. Checked in order: the index must be in
/// range (`InvalidMilestoneIndex`), the milestone must be completed
/// (`MilestoneNotCompleted`), the escrow balance must cover the amount
/// (`InsufficientFunds`), and the credit must not overflow the creator's
/// balance (`AmountOverflow`). Emits one `FundsReleasedEvent`.
///
/// Nothing marks a milestone as already paid: a second call on the same
/// completed milestone releases its amount again whenever the escrow
/// balance still covers it. Callers who need at-most-once payout must
/// track released milestones themselves.
pub fn release_funds(ctx: &mut ReleaseFunds, milestone_index: u8, timestamp: i64) -> (r: Result<
    FundsReleasedEvent,
    ErrorCode,
>)
    requires
        old(ctx).escrow.key == old(ctx).campaign.escrow_account,
        old(ctx).creator.key == old(ctx).campaign.creator,
    ensures
        ({
            let c = old(ctx).campaign@;
            let i = milestone_index as int;
            let escrow = old(ctx).escrow.lamports;
            let creator = old(ctx).creator.lamports;
            &&& (r is Ok <==> i < c.milestones.len() && c.milestones[i].completed && escrow
                >= c.milestones[i].amount && creator + c.milestones[i].amount <= u64::MAX)
            &&& (i >= c.milestones.len() ==> r == Err::<FundsReleasedEvent, ErrorCode>(
                ErrorCode::InvalidMilestoneIndex,
            ))
            &&& (i < c.milestones.len() && !c.milestones[i].completed ==> r == Err::<
                FundsReleasedEvent,
                ErrorCode,
            >(ErrorCode::MilestoneNotCompleted))
            &&& (i < c.milestones.len() && c.milestones[i].completed && escrow < c.milestones[
                i
            ].amount ==> r == Err::<FundsReleasedEvent, ErrorCode>(ErrorCode::InsufficientFunds))
            &&& (i < c.milestones.len() && c.milestones[i].completed && escrow >= c.milestones[
                i
            ].amount && creator + c.milestones[i].amount > u64::MAX ==> r == Err::<
                FundsReleasedEvent,
                ErrorCode,
            >(ErrorCode::AmountOverflow))
        }),
        r is Ok ==> ({
            let amount = old(ctx).campaign@.milestones[milestone_index as int].amount;
            final(ctx).escrow == (LedgerAccount {
                lamports: (old(ctx).escrow.lamports - amount) as u64,
                ..old(ctx).escrow
            }) && final(ctx).creator == (LedgerAccount {
                lamports: (old(ctx).creator.lamports + amount) as u64,
                ..old(ctx).creator
            }) && r == Ok::<FundsReleasedEvent, ErrorCode>(FundsReleasedEvent {
                campaign: old(ctx).campaign_key,
                milestone_index,
                amount,
                recipient: old(ctx).creator.key,
                timestamp,
            })
        }),
        r is Err ==> final(ctx).escrow == old(ctx).escrow && final(ctx).creator == old(ctx).creator,
        final(ctx).escrow.lamports + final(ctx).creator.lamports
            == old(ctx).escrow.lamports + old(ctx).creator.lamports,
        final(ctx).campaign@ == old(ctx).campaign@,
        final(ctx).campaign_key == old(ctx).campaign_key,
{
    let idx = milestone_index as usize;
    if idx >= ctx.campaign.milestones.len() {
        return Err(ErrorCode::InvalidMilestoneIndex);
    }
    if !ctx.campaign.milestones[idx].completed {
        return Err(ErrorCode::MilestoneNotCompleted);
    }
    let release_amount: u64 = ctx.campaign.milestones[idx].amount;
    if ctx.escrow.lamports < release_amount {
        return Err(ErrorCode::InsufficientFunds);
    }
    if release_amount > u64::MAX - ctx.creator.lamports {
        return Err(ErrorCode::AmountOverflow);
    }
    match transfer_lamports(&mut ctx.escrow, &mut ctx.creator, release_amount) {
        Ok(()) => {},
        Err(e) => {
            return Err(e);
        },
    }
    Ok(FundsReleasedEvent {
        campaign: ctx.campaign_key,
        milestone_index,
        amount: release_amount,
        recipient: ctx.creator.key,
        timestamp,
    })
}

/// Refunds `amount` from the escrow to the donor account the caller
/// supplies, and lowers `amount_donated` by the same amount, all or
/// nothing. Checked in order: the escrow balance must cover the amount
/// (`InsufficientFunds`), the credit must not overflow the donor's
/// balance (`AmountOverflow`), and `amount_donated` must cover the
/// deduction (`AmountOverflow`, an underflow). Emits one `RefundEvent`.
///
/// No condition ties the refund to the supplied donor's earlier
/// donations, to a failed milestone or to an expired campaign: any caller
/// the host admits may direct a refund, up to the escrow balance, at any
/// account. Eligibility is the host's concern.
pub fn refund(ctx: &mut Refund, amount: u64, timestamp: i64) -> (r: Result<RefundEvent, ErrorCode>)
    requires
        old(ctx).escrow.key == old(ctx).campaign.escrow_account,
    ensures
        r is Ok <==> old(ctx).escrow.lamports >= amount && old(ctx).donor.lamports + amount
            <= u64::MAX && old(ctx).campaign@.amount_donated >= amount,
        old(ctx).escrow.lamports < amount ==> r == Err::<RefundEvent, ErrorCode>(
            ErrorCode::InsufficientFunds,
        ),
        old(ctx).escrow.lamports >= amount && (old(ctx).donor.lamports + amount > u64::MAX
            || old(ctx).campaign@.amount_donated < amount) ==> r == Err::<RefundEvent, ErrorCode>(
            ErrorCode::AmountOverflow,
        ),
        r is Ok ==> final(ctx).campaign@ == with_refund(old(ctx).campaign@, amount)
            && final(ctx).escrow == (LedgerAccount {
            lamports: (old(ctx).escrow.lamports - amount) as u64,
            ..old(ctx).escrow
        }) && final(ctx).donor == (LedgerAccount {
            lamports: (old(ctx).donor.lamports + amount) as u64,
            ..old(ctx).donor
        }) && r == Ok::<RefundEvent, ErrorCode>(RefundEvent {
            campaign: old(ctx).campaign_key,
            donor: old(ctx).donor.key,
            amount,
            timestamp,
        }),
        r is Err ==> final(ctx).campaign@ == old(ctx).campaign@
            && final(ctx).escrow == old(ctx).escrow && final(ctx).donor == old(ctx).donor,
        final(ctx).escrow.lamports + final(ctx).donor.lamports
            == old(ctx).escrow.lamports + old(ctx).donor.lamports,
        final(ctx).campaign_key == old(ctx).campaign_key,
{
    if ctx.escrow.lamports < amount {
        return Err(ErrorCode::InsufficientFunds);
    }
    if amount > u64::MAX - ctx.donor.lamports {
        return Err(ErrorCode::AmountOverflow);
    }
    if ctx.campaign.amount_donated < amount {
        return Err(ErrorCode::AmountOverflow);
    }
    match transfer_lamports(&mut ctx.escrow, &mut ctx.donor, amount) {
        Ok(()) => {},
        Err(e) => {
            return Err(e);
        },
    }
    ctx.campaign.amount_donated = ctx.campaign.amount_donated - amount;
    proof {
        assert(ctx.campaign@ =~= with_refund(old(ctx).campaign@, amount));
    }
    Ok(RefundEvent { campaign: ctx.campaign_key, donor: ctx.donor.key, amount, timestamp })
}

/// Law: re-verification is idempotent on completion and keeps only the
/// latest proof. Verifying the milestone at `i` and then verifying it
/// again with a different proof leaves it completed after both steps,
/// with the second proof as its `verification_proof`; the two steps
/// together change the campaign exactly as the second step alone would.
pub proof fn lemma_verify_milestone_idempotent(c: CampaignView, i: int, p1: Seq<char>, p2: Seq<char>)
    requires
        0 <= i < c.milestones.len(),
    ensures
        with_verified_milestone(c, i, p1).milestones[i].completed,
        with_verified_milestone(with_verified_milestone(c, i, p1), i, p2).milestones[i].completed,
        with_verified_milestone(with_verified_milestone(c, i, p1), i, p2).milestones[
            i
        ].verification_proof == p2,
        with_verified_milestone(with_verified_milestone(c, i, p1), i, p2)
            == with_verified_milestone(c, i, p2),
{
    let c1 = with_verified_milestone(c, i, p1);
    let c2 = with_verified_milestone(c1, i, p2);
    assert(c2.milestones =~= with_verified_milestone(c, i, p2).milestones);
    assert(c2 =~= with_verified_milestone(c, i, p2));
}

/// Law: verification never unverifies. Verifying the milestone at `i`
/// marks it completed, and every other milestone's completion flag is
/// exactly what it was; in particular a completed milestone stays
/// completed, whichever milestone is verified.
pub proof fn lemma_verify_milestone_monotone(c: CampaignView, i: int, proof: Seq<char>, j: int)
    requires
        0 <= i < c.milestones.len(),
        0 <= j < c.milestones.len(),
    ensures
        with_verified_milestone(c, i, proof).milestones[i].completed,
        j != i ==> with_verified_milestone(c, i, proof).milestones[j].completed == c.milestones[
            j
        ].completed,
        c.milestones[j].completed ==> with_verified_milestone(c, i, proof).milestones[j].completed,
{
}

} // verus!
