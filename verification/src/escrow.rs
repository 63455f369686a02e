//! The campaign record and its lifecycle: creation, donation, withdrawal and
//! closure.
//!
//! Every operation either applies as a whole or leaves every account as it
//! was. The ledger's clock, the program's identity and the policy on closed
//! campaigns are values that the caller hands in.

use crate::address::{
    created_view, escrow_credential, escrow_identity, find_escrow, found_view,
    lemma_address_by_view, reproduce_escrow, Address,
};
use crate::custody::{credited, debited, transfer, transfer_verdict, CustodyError, TokenAccount};
use vstd::prelude::*;
use vstd::string::StringSliceAdditionalSpecFns;
use vstd::utf8::encode_utf8;

verus! {

/// The longest campaign identifier, in bytes.
pub const MAX_CAMPAIGN_ID_LEN: usize = 32;

/// The longest title, in bytes.
pub const MAX_TITLE_LEN: usize = 64;

/// The longest metadata URI, in bytes.
pub const MAX_METADATA_URI_LEN: usize = 256;

/// Why the program refused an operation.
#[derive(Clone, Copy, Debug, PartialEq, Eq, Structural)]
pub enum ErrorCode {
    /// Campaign ID must be 32 characters or less.
    CampaignIdTooLong,
    /// Title must be 64 characters or less.
    TitleTooLong,
    /// Metadata URI must be 256 characters or less.
    MetadataUriTooLong,
    /// Goal must be greater than zero.
    InvalidGoal,
    /// Deadline must be in the future.
    InvalidDeadline,
    /// Amount must be greater than zero.
    InvalidAmount,
    /// Campaign is not active.
    CampaignInactive,
    /// Campaign deadline has passed.
    CampaignExpired,
    /// Invalid campaign PDA.
    InvalidCampaignPDA,
    /// Invalid vault address.
    InvalidVault,
    /// Unauthorized: not campaign authority.
    Unauthorized,
    /// Arithmetic overflow.
    Overflow,
}

/// Why an operation that moves funds failed: the program refused it, or
/// custody did.
#[derive(Clone, Copy, Debug, PartialEq, Eq, Structural)]
pub enum Failure {
    Rejected(ErrorCode),
    Custody(CustodyError),
}

/// The persistent record of one campaign.
#[derive(Clone, Debug)]
pub struct Campaign {
    /// The owner: the only party that may withdraw or close.
    pub authority: Address,
    /// The identifier, unique per owner; part of the escrow identity's seeds.
    pub campaign_id: String,
    /// The bump seed that reproduces the escrow identity without a search.
    pub bump: u8,
    pub title: String,
    pub metadata_uri: String,
    /// The funding goal. Donations may exceed it.
    pub goal: u64,
    /// The sum of the donations accepted so far.
    pub raised: u64,
    /// The instant from which donations are refused.
    pub deadline: i64,
    /// The address of the vault that holds the donations.
    pub vault: Address,
    /// True until the campaign is closed.
    pub is_active: bool,
}

/// A campaign record together with the address it lives at, which is the
/// campaign's escrow identity.
#[derive(Clone, Debug)]
pub struct CampaignAccount {
    pub key: Address,
    pub data: Campaign,
}

/// A freshly created campaign and its empty vault.
#[derive(Clone, Debug)]
pub struct Escrow {
    pub campaign: CampaignAccount,
    pub vault: TokenAccount,
}

/// What creating a campaign reads.
#[derive(Clone, Copy, Debug)]
pub struct InitializeCampaign {
    /// The program under which escrow identities are derived.
    pub program_id: Address,
    /// The party that creates the campaign and will own it.
    pub authority: Address,
    /// Where the vault is to live.
    pub vault: Address,
    /// The kind of token that the vault is to hold.
    pub usdc_mint: Address,
    /// The ledger's clock.
    pub now: i64,
}

/// The accounts of a donation.
#[derive(Clone, Debug)]
pub struct Donate {
    /// The program under which escrow identities are derived.
    pub program_id: Address,
    /// Whether a closed campaign refuses donations.
    pub closure_blocks_donation: bool,
    /// The ledger's clock.
    pub now: i64,
    /// The party that gives, and authorises the transfer out of its account.
    pub donor: Address,
    pub donor_token_account: TokenAccount,
    pub campaign: CampaignAccount,
    pub vault: TokenAccount,
}

/// The accounts of a withdrawal.
#[derive(Clone, Debug)]
pub struct Withdraw {
    /// The program under which escrow identities are derived.
    pub program_id: Address,
    /// The party that asks for the funds.
    pub authority: Address,
    pub campaign: CampaignAccount,
    pub vault: TokenAccount,
    pub authority_token_account: TokenAccount,
}

/// The accounts of a closure.
#[derive(Clone, Debug)]
pub struct CloseCampaign {
    /// The party that asks for the closure.
    pub authority: Address,
    pub campaign: CampaignAccount,
}

/// The number of bytes that a text takes when stored.
pub open spec fn byte_len(text: Seq<char>) -> nat {
    encode_utf8(text).len()
}

impl Campaign {
    /// The stored texts fit their buffers and the goal is positive.
    pub open spec fn well_formed(&self) -> bool {
        &&& byte_len(self.campaign_id@) <= MAX_CAMPAIGN_ID_LEN
        &&& byte_len(self.title@) <= MAX_TITLE_LEN
        &&& byte_len(self.metadata_uri@) <= MAX_METADATA_URI_LEN
        &&& self.goal > 0
    }
}

impl CampaignAccount {
    /// The record lives at the escrow identity that its own owner and
    /// identifier derive under `program_id`, and stores that identity's bump.
    pub open spec fn bound_to(&self, program_id: Address) -> bool {
        escrow_identity(
            program_id@,
            self.data.authority@,
            encode_utf8(self.data.campaign_id@),
        ) == Some((self.key@, self.data.bump))
    }

    /// The stored owner, identifier and bump seed reproduce the address that
    /// the record lives at.
    pub open spec fn reproducible(&self, program_id: Address) -> bool {
        escrow_credential(
            program_id@,
            self.data.authority@,
            encode_utf8(self.data.campaign_id@),
            self.data.bump,
        ) == Some(self.key@)
    }
}

/// Whether the inputs of a creation are acceptable, and if not, the first
/// reason why.
pub open spec fn creation_verdict(
    campaign_id: Seq<char>,
    title: Seq<char>,
    metadata_uri: Seq<char>,
    goal: u64,
    deadline: i64,
    now: i64,
) -> Result<(), ErrorCode> {
    if byte_len(campaign_id) > MAX_CAMPAIGN_ID_LEN {
        Err(ErrorCode::CampaignIdTooLong)
    } else if byte_len(title) > MAX_TITLE_LEN {
        Err(ErrorCode::TitleTooLong)
    } else if byte_len(metadata_uri) > MAX_METADATA_URI_LEN {
        Err(ErrorCode::MetadataUriTooLong)
    } else if goal == 0 {
        Err(ErrorCode::InvalidGoal)
    } else if deadline <= now {
        Err(ErrorCode::InvalidDeadline)
    } else {
        Ok(())
    }
}

/// The campaign and vault that a creation sets up at the escrow identity
/// `key` with bump seed `bump`.
pub open spec fn created_escrow(
    ctx: InitializeCampaign,
    key: Address,
    bump: u8,
    campaign_id: String,
    title: String,
    metadata_uri: String,
    goal: u64,
    deadline: i64,
) -> Escrow {
    Escrow {
        campaign: CampaignAccount {
            key,
            data: Campaign {
                authority: ctx.authority,
                campaign_id,
                bump,
                title,
                metadata_uri,
                goal,
                raised: 0,
                deadline,
                vault: ctx.vault,
                is_active: true,
            },
        },
        vault: TokenAccount { key: ctx.vault, mint: ctx.usdc_mint, owner: key, amount: 0 },
    }
}

/// Whether `outcome` is what a creation yields when the derivation of the
/// escrow identity gave `derived`.
pub open spec fn is_creation_outcome(
    outcome: Result<Escrow, ErrorCode>,
    ctx: InitializeCampaign,
    derived: Option<(Seq<u8>, u8)>,
    campaign_id: String,
    title: String,
    metadata_uri: String,
    goal: u64,
    deadline: i64,
) -> bool {
    match creation_verdict(campaign_id@, title@, metadata_uri@, goal, deadline, ctx.now) {
        Err(e) => outcome == Err::<Escrow, ErrorCode>(e),
        Ok(()) => match derived {
            None => outcome == Err::<Escrow, ErrorCode>(ErrorCode::InvalidCampaignPDA),
            Some((address, bump)) => {
                &&& outcome matches Ok(escrow)
                &&& escrow.campaign.key@ == address
                &&& escrow == created_escrow(
                    ctx,
                    escrow.campaign.key,
                    bump,
                    campaign_id,
                    title,
                    metadata_uri,
                    goal,
                    deadline,
                )
            },
        },
    }
}

/// The number of bytes that `text` takes when stored.
pub fn stored_len(text: &str) -> (n: usize)
    ensures
        n == byte_len(text@),
{
    broadcast use vstd::slice::axiom_spec_len;

    text.as_bytes().len()
}

/// Checks the inputs of a creation in the order of `creation_verdict`.
pub fn validate_creation(
    campaign_id: &str,
    title: &str,
    metadata_uri: &str,
    goal: u64,
    deadline: i64,
    now: i64,
) -> (verdict: Result<(), ErrorCode>)
    ensures
        verdict == creation_verdict(campaign_id@, title@, metadata_uri@, goal, deadline, now),
{
    if stored_len(campaign_id) > MAX_CAMPAIGN_ID_LEN {
        Err(ErrorCode::CampaignIdTooLong)
    } else if stored_len(title) > MAX_TITLE_LEN {
        Err(ErrorCode::TitleTooLong)
    } else if stored_len(metadata_uri) > MAX_METADATA_URI_LEN {
        Err(ErrorCode::MetadataUriTooLong)
    } else if goal == 0 {
        Err(ErrorCode::InvalidGoal)
    } else if deadline <= now {
        Err(ErrorCode::InvalidDeadline)
    } else {
        Ok(())
    }
}

/// Creates a campaign given what the derivation of its escrow identity
/// returned. Unacceptable inputs are refused first; a derivation that found
/// no address is an invalid campaign address. On success the record stores
/// the bump seed, starts active with nothing raised, and the new vault obeys
/// the escrow identity alone.
pub fn create_campaign(
    ctx: &InitializeCampaign,
    derived: Option<(Address, u8)>,
    campaign_id: String,
    title: String,
    metadata_uri: String,
    goal: u64,
    deadline: i64,
) -> (outcome: Result<Escrow, ErrorCode>)
    ensures
        is_creation_outcome(
            outcome,
            *ctx,
            found_view(derived),
            campaign_id,
            title,
            metadata_uri,
            goal,
            deadline,
        ),
{
    match validate_creation(
        campaign_id.as_str(),
        title.as_str(),
        metadata_uri.as_str(),
        goal,
        deadline,
        ctx.now,
    ) {
        Err(e) => { return Err(e); },
        Ok(()) => {},
    }
    match derived {
        None => Err(ErrorCode::InvalidCampaignPDA),
        Some((key, bump)) => Ok(
            Escrow {
                campaign: CampaignAccount {
                    key,
                    data: Campaign {
                        authority: ctx.authority,
                        campaign_id,
                        bump,
                        title,
                        metadata_uri,
                        goal,
                        raised: 0,
                        deadline,
                        vault: ctx.vault,
                        is_active: true,
                    },
                },
                vault: TokenAccount {
                    key: ctx.vault,
                    mint: ctx.usdc_mint,
                    owner: key,
                    amount: 0,
                },
            },
        ),
    }
}

/// Initialize a new crowdfunding campaign: derives the escrow identity of
/// `(ctx.authority, campaign_id)` and creates the record and its vault there.
/// A created campaign is well formed and bound to its escrow identity, and
/// the stored bump seed reproduces the identity that controls the vault.
pub fn initialize_campaign(
    ctx: &InitializeCampaign,
    campaign_id: String,
    title: String,
    metadata_uri: String,
    goal: u64,
    deadline: i64,
) -> (outcome: Result<Escrow, ErrorCode>)
    ensures
        is_creation_outcome(
            outcome,
            *ctx,
            escrow_identity(ctx.program_id@, ctx.authority@, encode_utf8(campaign_id@)),
            campaign_id,
            title,
            metadata_uri,
            goal,
            deadline,
        ),
        outcome matches Ok(escrow) ==> {
            &&& escrow.campaign.data.well_formed()
            &&& escrow.campaign.bound_to(ctx.program_id)
            &&& escrow.campaign.reproducible(ctx.program_id)
            &&& escrow.vault.owner == escrow.campaign.key
        },
{
    match validate_creation(
        campaign_id.as_str(),
        title.as_str(),
        metadata_uri.as_str(),
        goal,
        deadline,
        ctx.now,
    ) {
        Err(e) => { return Err(e); },
        Ok(()) => {},
    }
    let derived = find_escrow(&ctx.program_id, &ctx.authority, campaign_id.as_str());
    create_campaign(ctx, derived, campaign_id, title, metadata_uri, goal, deadline)
}

/// The checks of a donation that need neither a derivation nor custody: the
/// vault is the campaign's, the amount is positive, the campaign is active
/// where closure blocks donations, and the deadline has not come. The
/// deadline gates donations from the instant `deadline` itself.
pub open spec fn donation_precheck(ctx: Donate, amount: u64) -> Result<(), ErrorCode> {
    if ctx.vault.key != ctx.campaign.data.vault {
        Err(ErrorCode::InvalidVault)
    } else if amount == 0 {
        Err(ErrorCode::InvalidAmount)
    } else if ctx.closure_blocks_donation && !ctx.campaign.data.is_active {
        Err(ErrorCode::CampaignInactive)
    } else if ctx.now >= ctx.campaign.data.deadline {
        Err(ErrorCode::CampaignExpired)
    } else {
        Ok(())
    }
}

/// Whether a donation of `amount` is accepted when the derivation of the
/// campaign's escrow identity gave `derived`: the new total raised, or the
/// first reason for refusing. After the checks of `donation_precheck` the
/// derived address must be the campaign's, custody must agree to the
/// transfer, and the new total must fit its integer.
pub open spec fn donation_verdict(ctx: Donate, derived: Option<(Seq<u8>, u8)>, amount: u64) -> Result<
    u64,
    Failure,
> {
    match donation_precheck(ctx, amount) {
        Err(e) => Err(Failure::Rejected(e)),
        Ok(()) => if !(derived matches Some((address, _)) && address == ctx.campaign.key@) {
            Err(Failure::Rejected(ErrorCode::InvalidCampaignPDA))
        } else {
            match transfer_verdict(ctx.donor_token_account, ctx.vault, ctx.donor, amount) {
                Err(e) => Err(Failure::Custody(e)),
                Ok(()) => if ctx.campaign.data.raised + amount > u64::MAX {
                    Err(Failure::Rejected(ErrorCode::Overflow))
                } else {
                    Ok((ctx.campaign.data.raised + amount) as u64)
                },
            }
        },
    }
}

/// The accounts after a donation of `amount` was accepted.
pub open spec fn after_donation(ctx: Donate, amount: u64) -> Donate {
    Donate {
        donor_token_account: debited(ctx.donor_token_account, amount),
        vault: credited(ctx.vault, amount),
        campaign: CampaignAccount {
            data: Campaign {
                raised: (ctx.campaign.data.raised + amount) as u64,
                ..ctx.campaign.data
            },
            ..ctx.campaign
        },
        ..ctx
    }
}

/// Checks the vault, the amount, the campaign's state and the deadline.
pub fn check_donation(ctx: &Donate, amount: u64) -> (verdict: Result<(), ErrorCode>)
    ensures
        verdict == donation_precheck(*ctx, amount),
{
    if ctx.vault.key != ctx.campaign.data.vault {
        Err(ErrorCode::InvalidVault)
    } else if amount == 0 {
        Err(ErrorCode::InvalidAmount)
    } else if ctx.closure_blocks_donation && !ctx.campaign.data.is_active {
        Err(ErrorCode::CampaignInactive)
    } else if ctx.now >= ctx.campaign.data.deadline {
        Err(ErrorCode::CampaignExpired)
    } else {
        Ok(())
    }
}

/// Settles a donation given what the derivation of the campaign's escrow
/// identity returned. An accepted donation moves `amount` from the donor's
/// account into the vault, authorised by the donor, and adds it to the total
/// raised; a refused one changes nothing.
pub fn accept_donation(ctx: &mut Donate, derived: Option<(Address, u8)>, amount: u64) -> (outcome:
    Result<u64, Failure>)
    ensures
        outcome == donation_verdict(*old(ctx), found_view(derived), amount),
        outcome is Ok ==> *final(ctx) == after_donation(*old(ctx), amount),
        outcome is Err ==> *final(ctx) == *old(ctx),
{
    match check_donation(ctx, amount) {
        Err(e) => { return Err(Failure::Rejected(e)); },
        Ok(()) => {},
    }
    match derived {
        None => { return Err(Failure::Rejected(ErrorCode::InvalidCampaignPDA)); },
        Some((address, _)) => {
            if address != ctx.campaign.key {
                proof {
                    if address@ == ctx.campaign.key@ {
                        lemma_address_by_view(address, ctx.campaign.key);
                    }
                }
                return Err(Failure::Rejected(ErrorCode::InvalidCampaignPDA));
            }
        },
    }
    let mut source = ctx.donor_token_account;
    let mut vault = ctx.vault;
    match transfer(&mut source, &mut vault, &ctx.donor, amount) {
        Err(e) => { return Err(Failure::Custody(e)); },
        Ok(()) => {},
    }
    match ctx.campaign.data.raised.checked_add(amount) {
        None => Err(Failure::Rejected(ErrorCode::Overflow)),
        Some(raised) => {
            ctx.donor_token_account = source;
            ctx.vault = vault;
            ctx.campaign.data.raised = raised;
            Ok(raised)
        },
    }
}

/// Donate to a campaign: re-derives the escrow identity from the stored owner
/// and identifier, checks it against the campaign's address, and settles the
/// donation. Returns the new total raised.
pub fn donate(ctx: &mut Donate, amount: u64) -> (outcome: Result<u64, Failure>)
    ensures
        outcome == donation_verdict(
            *old(ctx),
            escrow_identity(
                old(ctx).program_id@,
                old(ctx).campaign.data.authority@,
                encode_utf8(old(ctx).campaign.data.campaign_id@),
            ),
            amount,
        ),
        outcome is Ok ==> *final(ctx) == after_donation(*old(ctx), amount),
        outcome is Err ==> *final(ctx) == *old(ctx),
{
    match check_donation(ctx, amount) {
        Err(e) => { return Err(Failure::Rejected(e)); },
        Ok(()) => {},
    }
    let derived = find_escrow(
        &ctx.program_id,
        &ctx.campaign.data.authority,
        ctx.campaign.data.campaign_id.as_str(),
    );
    accept_donation(ctx, derived, amount)
}

/// Whether a withdrawal of `amount` goes through when the stored seeds and
/// bump reproduce `credential`. Only the campaign's owner may ask; the funds
/// leave the vault on the word of the reproduced escrow identity, never of a
/// person. Neither the deadline nor the total raised bounds a withdrawal:
/// only the vault's balance does.
pub open spec fn withdrawal_verdict(ctx: Withdraw, credential: Option<Seq<u8>>, amount: u64) -> Result<
    (),
    Failure,
> {
    if ctx.campaign.data.authority != ctx.authority {
        Err(Failure::Rejected(ErrorCode::Unauthorized))
    } else if credential != Some(ctx.campaign.key@) {
        Err(Failure::Rejected(ErrorCode::InvalidCampaignPDA))
    } else {
        match transfer_verdict(ctx.vault, ctx.authority_token_account, ctx.campaign.key, amount) {
            Err(e) => Err(Failure::Custody(e)),
            Ok(()) => Ok(()),
        }
    }
}

/// The accounts after a withdrawal of `amount` went through.
pub open spec fn after_withdrawal(ctx: Withdraw, amount: u64) -> Withdraw {
    Withdraw {
        vault: debited(ctx.vault, amount),
        authority_token_account: credited(ctx.authority_token_account, amount),
        ..ctx
    }
}

/// Settles a withdrawal given the identity that the stored seeds and bump
/// reproduced. On success `amount` moves from the vault to the owner's
/// account and the record is untouched; on failure nothing changes.
pub fn release_funds(ctx: &mut Withdraw, credential: Option<Address>, amount: u64) -> (outcome:
    Result<(), Failure>)
    ensures
        outcome == withdrawal_verdict(*old(ctx), created_view(credential), amount),
        outcome is Ok ==> *final(ctx) == after_withdrawal(*old(ctx), amount),
        outcome is Err ==> *final(ctx) == *old(ctx),
{
    if ctx.campaign.data.authority != ctx.authority {
        return Err(Failure::Rejected(ErrorCode::Unauthorized));
    }
    let presented = match credential {
        None => { return Err(Failure::Rejected(ErrorCode::InvalidCampaignPDA)); },
        Some(address) => address,
    };
    if presented != ctx.campaign.key {
        proof {
            if presented@ == ctx.campaign.key@ {
                lemma_address_by_view(presented, ctx.campaign.key);
            }
        }
        return Err(Failure::Rejected(ErrorCode::InvalidCampaignPDA));
    }
    let mut vault = ctx.vault;
    let mut destination = ctx.authority_token_account;
    match transfer(&mut vault, &mut destination, &presented, amount) {
        Err(e) => Err(Failure::Custody(e)),
        Ok(()) => {
            ctx.vault = vault;
            ctx.authority_token_account = destination;
            Ok(())
        },
    }
}

/// Withdraw funds (only campaign authority): reproduces the escrow identity
/// from the stored owner, identifier and bump seed and presents it to custody
/// as the vault's controller.
pub fn withdraw(ctx: &mut Withdraw, amount: u64) -> (outcome: Result<(), Failure>)
    ensures
        outcome == withdrawal_verdict(
            *old(ctx),
            escrow_credential(
                old(ctx).program_id@,
                old(ctx).campaign.data.authority@,
                encode_utf8(old(ctx).campaign.data.campaign_id@),
                old(ctx).campaign.data.bump,
            ),
            amount,
        ),
        outcome is Ok ==> *final(ctx) == after_withdrawal(*old(ctx), amount),
        outcome is Err ==> *final(ctx) == *old(ctx),
{
    if ctx.campaign.data.authority != ctx.authority {
        return Err(Failure::Rejected(ErrorCode::Unauthorized));
    }
    let credential = reproduce_escrow(
        &ctx.program_id,
        &ctx.campaign.data.authority,
        ctx.campaign.data.campaign_id.as_str(),
        ctx.campaign.data.bump,
    );
    release_funds(ctx, credential, amount)
}

/// Whether a closure is allowed: only the campaign's owner may close.
pub open spec fn closure_verdict(ctx: CloseCampaign) -> Result<(), ErrorCode> {
    if ctx.campaign.data.authority != ctx.authority {
        Err(ErrorCode::Unauthorized)
    } else {
        Ok(())
    }
}

/// The accounts after a closure: the campaign is inactive, all else is as
/// it was.
pub open spec fn after_closure(ctx: CloseCampaign) -> CloseCampaign {
    CloseCampaign {
        campaign: CampaignAccount {
            data: Campaign { is_active: false, ..ctx.campaign.data },
            ..ctx.campaign
        },
        ..ctx
    }
}

/// Close campaign (only authority). Closing an inactive campaign succeeds
/// and leaves it inactive; nothing makes a campaign active again.
pub fn close_campaign(ctx: &mut CloseCampaign) -> (outcome: Result<(), ErrorCode>)
    ensures
        outcome == closure_verdict(*old(ctx)),
        outcome is Ok ==> *final(ctx) == after_closure(*old(ctx)),
        outcome is Err ==> *final(ctx) == *old(ctx),
{
    if ctx.campaign.data.authority != ctx.authority {
        return Err(ErrorCode::Unauthorized);
    }
    ctx.campaign.data.is_active = false;
    Ok(())
}

} // verus!
