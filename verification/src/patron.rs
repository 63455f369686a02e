//! The patron variant of the campaign: donations in the ledger's own coin,
//! paid straight into the campaign's account, each answered with a
//! non-transferable badge for the donor.
//!
//! A badge is a token class of its own, created for one donation, of which
//! exactly one unit is minted into the donor's holding account. Whether every
//! donation earns a badge or only a donor's first is a policy that the caller
//! hands in.

use crate::address::{escrow_identity, find_escrow, found_view, lemma_address_by_view, Address};
use crate::custody::CustodyError;
use crate::escrow::{
    byte_len, stored_len, ErrorCode, Failure, MAX_METADATA_URI_LEN, MAX_TITLE_LEN,
};
use spl_token_2022::extension::ExtensionType;
use spl_token_2022::state::Mint;
use vstd::prelude::*;
use vstd::utf8::encode_utf8;

verus! {

/// The size in bytes of the account of a badge class: a mint that carries
/// the one extension that forbids transfers.
pub const BADGE_MINT_SPACE: u64 = 170;

/// When a donation earns a badge.
#[derive(Clone, Copy, Debug, PartialEq, Eq, Structural)]
pub enum IssuancePolicy {
    /// Every accepted donation earns one.
    PerDonation,
    /// Only a donation by a donor who holds none yet earns one.
    PerDonor,
}

/// The persistent record of one campaign of this variant. The title is the
/// label under which the owner's escrow identity is derived.
#[derive(Clone, Debug)]
pub struct Campaign {
    pub authority: Address,
    pub title: String,
    pub goal: u64,
    /// The sum of the donations accepted so far.
    pub raised: u64,
    pub metadata_uri: String,
    pub bump: u8,
}

/// A campaign record, the address it lives at and the coin that donations
/// have paid into it.
#[derive(Clone, Debug)]
pub struct CampaignAccount {
    pub key: Address,
    pub received: u64,
    pub data: Campaign,
}

/// What creating a campaign reads.
#[derive(Clone, Copy, Debug)]
pub struct InitializeCampaign {
    /// The program under which escrow identities are derived.
    pub program_id: Address,
    /// The party that creates the campaign and will own it.
    pub signer: Address,
}

/// A donor: an address, the coin it holds, and the number of this
/// campaign's badges it holds.
#[derive(Clone, Copy, Debug)]
pub struct Patron {
    pub key: Address,
    pub lamports: u64,
    pub badges: u64,
}

/// A badge as issued: its class and the donor's holding of it.
#[derive(Clone, Copy, Debug, PartialEq, Eq)]
pub struct Badge {
    /// The address of the class.
    pub mint: Address,
    /// The party that may mint units of the class: the donor.
    pub mint_authority: Address,
    /// The size of the class's account in bytes.
    pub space: u64,
    /// The coin that the donor deposited to keep the class's account.
    pub rent: u64,
    /// The class counts whole units only.
    pub decimals: u8,
    /// The units of the class in existence.
    pub supply: u64,
    /// Units of the class can never change hands.
    pub non_transferable: bool,
    /// The donor's holding account for the class.
    pub token_account: Address,
    /// The party that holds the badge.
    pub holder: Address,
    /// The units in the holding account.
    pub balance: u64,
}

/// The accounts of a donation.
#[derive(Clone, Debug)]
pub struct Donate {
    /// The program under which escrow identities are derived.
    pub program_id: Address,
    /// When a donation earns a badge.
    pub policy: IssuancePolicy,
    pub campaign: CampaignAccount,
    /// The donor, who pays for the donation and for the badge's account.
    pub signer: Patron,
    /// Where the new badge class is to live.
    pub mint: Address,
    /// The donor's holding account for the new class.
    pub token_account: Address,
    /// The units in the holding account where it exists already, `None`
    /// where it is still to be created.
    pub token_account_balance: Option<u64>,
    /// The deposit that the ledger asks for an account of the size of a
    /// badge class.
    pub mint_rent: u64,
}

/// Whether the inputs of a creation are acceptable, and if not, the first
/// reason why.
pub open spec fn creation_verdict(title: Seq<char>, metadata_uri: Seq<char>, goal: u64) -> Result<
    (),
    ErrorCode,
> {
    if byte_len(title) > MAX_TITLE_LEN {
        Err(ErrorCode::TitleTooLong)
    } else if byte_len(metadata_uri) > MAX_METADATA_URI_LEN {
        Err(ErrorCode::MetadataUriTooLong)
    } else if goal == 0 {
        Err(ErrorCode::InvalidGoal)
    } else {
        Ok(())
    }
}

/// The campaign that a creation sets up at the escrow identity `key` with
/// bump seed `bump`.
pub open spec fn created_campaign(
    ctx: InitializeCampaign,
    key: Address,
    bump: u8,
    title: String,
    goal: u64,
    metadata_uri: String,
) -> CampaignAccount {
    CampaignAccount {
        key,
        received: 0,
        data: Campaign { authority: ctx.signer, title, goal, raised: 0, metadata_uri, bump },
    }
}

/// Whether `outcome` is what a creation yields when the derivation of the
/// escrow identity gave `derived`.
pub open spec fn is_creation_outcome(
    outcome: Result<CampaignAccount, ErrorCode>,
    ctx: InitializeCampaign,
    derived: Option<(Seq<u8>, u8)>,
    title: String,
    goal: u64,
    metadata_uri: String,
) -> bool {
    match creation_verdict(title@, metadata_uri@, goal) {
        Err(e) => outcome == Err::<CampaignAccount, ErrorCode>(e),
        Ok(()) => match derived {
            None => outcome == Err::<CampaignAccount, ErrorCode>(ErrorCode::InvalidCampaignPDA),
            Some((address, bump)) => {
                &&& outcome matches Ok(campaign)
                &&& campaign.key@ == address
                &&& campaign == created_campaign(
                    ctx,
                    campaign.key,
                    bump,
                    title,
                    goal,
                    metadata_uri,
                )
            },
        },
    }
}

/// Checks the inputs of a creation in the order of `creation_verdict`.
pub fn validate_creation(title: &str, metadata_uri: &str, goal: u64) -> (verdict: Result<
    (),
    ErrorCode,
>)
    ensures
        verdict == creation_verdict(title@, metadata_uri@, goal),
{
    if stored_len(title) > MAX_TITLE_LEN {
        Err(ErrorCode::TitleTooLong)
    } else if stored_len(metadata_uri) > MAX_METADATA_URI_LEN {
        Err(ErrorCode::MetadataUriTooLong)
    } else if goal == 0 {
        Err(ErrorCode::InvalidGoal)
    } else {
        Ok(())
    }
}

/// Creates a campaign given what the derivation of its escrow identity
/// returned. Unacceptable inputs are refused first; a derivation that found
/// no address is an invalid campaign address.
pub fn create_campaign(
    ctx: &InitializeCampaign,
    derived: Option<(Address, u8)>,
    title: String,
    goal: u64,
    metadata_uri: String,
) -> (outcome: Result<CampaignAccount, ErrorCode>)
    ensures
        is_creation_outcome(outcome, *ctx, found_view(derived), title, goal, metadata_uri),
{
    match validate_creation(title.as_str(), metadata_uri.as_str(), goal) {
        Err(e) => { return Err(e); },
        Ok(()) => {},
    }
    match derived {
        None => Err(ErrorCode::InvalidCampaignPDA),
        Some((key, bump)) => Ok(
            CampaignAccount {
                key,
                received: 0,
                data: Campaign {
                    authority: ctx.signer,
                    title,
                    goal,
                    raised: 0,
                    metadata_uri,
                    bump,
                },
            },
        ),
    }
}

/// Creates the campaign that `ctx.signer` owns under `title`, at the escrow
/// identity that the two derive, with nothing raised.
pub fn initialize_campaign(
    ctx: &InitializeCampaign,
    title: String,
    goal: u64,
    metadata_uri: String,
) -> (outcome: Result<CampaignAccount, ErrorCode>)
    ensures
        is_creation_outcome(
            outcome,
            *ctx,
            escrow_identity(ctx.program_id@, ctx.signer@, encode_utf8(title@)),
            title,
            goal,
            metadata_uri,
        ),
{
    match validate_creation(title.as_str(), metadata_uri.as_str(), goal) {
        Err(e) => { return Err(e); },
        Ok(()) => {},
    }
    let derived = find_escrow(&ctx.program_id, &ctx.signer, title.as_str());
    create_campaign(ctx, derived, title, goal, metadata_uri)
}

/// Calls `ExtensionType::try_calculate_account_len` for a `Mint` with the one
/// extension `NonTransferable`. That extension holds no data, so the length
/// is that of the base account, 165 bytes, one byte for the account's type,
/// and the four-byte header of one extension entry. An error of the outside
/// function would be `None`; for this list of extensions it reports none.
#[verifier::external_body]
fn non_transferable_mint_len() -> (len: Option<usize>)
    ensures
        len == Some(170usize),
{
    match ExtensionType::try_calculate_account_len::<Mint>(&[ExtensionType::NonTransferable]) {
        Ok(len) => Some(len),
        Err(_) => None,
    }
}

/// The size in bytes of the account of a badge class.
pub fn badge_mint_space() -> (space: u64)
    ensures
        space == BADGE_MINT_SPACE,
{
    match non_transferable_mint_len() {
        Some(len) => len as u64,
        None => BADGE_MINT_SPACE,
    }
}

/// Whether an accepted donation earns a badge under the donation's policy.
pub open spec fn earns_badge(ctx: Donate) -> bool {
    ctx.policy == IssuancePolicy::PerDonation || ctx.signer.badges == 0
}

/// The units in the donor's holding account once it exists: creating an
/// account that exists already changes nothing.
pub open spec fn held(ctx: Donate) -> u64 {
    match ctx.token_account_balance {
        Some(units) => units,
        None => 0,
    }
}

/// The badge that a donation issues.
pub open spec fn issued_badge(ctx: Donate) -> Badge {
    Badge {
        mint: ctx.mint,
        mint_authority: ctx.signer.key,
        space: BADGE_MINT_SPACE,
        rent: ctx.mint_rent,
        decimals: 0,
        supply: 1,
        non_transferable: true,
        token_account: ctx.token_account,
        holder: ctx.signer.key,
        balance: (held(ctx) + 1) as u64,
    }
}

/// Whether a donation of `amount` is accepted when the derivation of the
/// campaign's escrow identity gave `derived`: the badge it earns, if any, or
/// the first reason for refusing. The donor must hold the amount, and where a
/// badge is due, the deposit for its account besides.
pub open spec fn donation_verdict(ctx: Donate, derived: Option<(Seq<u8>, u8)>, amount: u64) -> Result<
    Option<Badge>,
    Failure,
> {
    if amount == 0 {
        Err(Failure::Rejected(ErrorCode::InvalidAmount))
    } else if !(derived matches Some((address, _)) && address == ctx.campaign.key@) {
        Err(Failure::Rejected(ErrorCode::InvalidCampaignPDA))
    } else if ctx.signer.lamports < amount {
        Err(Failure::Custody(CustodyError::InsufficientFunds))
    } else if ctx.campaign.received + amount > u64::MAX {
        Err(Failure::Custody(CustodyError::Overflow))
    } else if ctx.campaign.data.raised + amount > u64::MAX {
        Err(Failure::Rejected(ErrorCode::Overflow))
    } else if !earns_badge(ctx) {
        Ok(None)
    } else if ctx.signer.lamports - amount < ctx.mint_rent {
        Err(Failure::Custody(CustodyError::InsufficientFunds))
    } else if held(ctx) + 1 > u64::MAX {
        Err(Failure::Custody(CustodyError::Overflow))
    } else if ctx.signer.badges + 1 > u64::MAX {
        Err(Failure::Rejected(ErrorCode::Overflow))
    } else {
        Ok(Some(issued_badge(ctx)))
    }
}

/// The accounts after a donation of `amount` was accepted and, where
/// `issued`, answered with a badge.
pub open spec fn after_donation(ctx: Donate, amount: u64, issued: bool) -> Donate {
    Donate {
        campaign: CampaignAccount {
            received: (ctx.campaign.received + amount) as u64,
            data: Campaign {
                raised: (ctx.campaign.data.raised + amount) as u64,
                ..ctx.campaign.data
            },
            ..ctx.campaign
        },
        signer: if issued {
            Patron {
                lamports: (ctx.signer.lamports - amount - ctx.mint_rent) as u64,
                badges: (ctx.signer.badges + 1) as u64,
                ..ctx.signer
            }
        } else {
            Patron { lamports: (ctx.signer.lamports - amount) as u64, ..ctx.signer }
        },
        token_account_balance: if issued {
            Some((held(ctx) + 1) as u64)
        } else {
            ctx.token_account_balance
        },
        ..ctx
    }
}

/// Settles a donation given what the derivation of the campaign's escrow
/// identity returned. An accepted donation moves `amount` from the donor to
/// the campaign and adds it to the total raised. Where the policy grants a
/// badge, the donor also pays the deposit for a new class that can never be
/// transferred, and exactly one unit of it is minted into the donor's holding
/// account. A refused donation changes nothing.
pub fn accept_donation(ctx: &mut Donate, derived: Option<(Address, u8)>, amount: u64) -> (outcome:
    Result<Option<Badge>, Failure>)
    ensures
        outcome == donation_verdict(*old(ctx), found_view(derived), amount),
        outcome matches Ok(badge) ==> *final(ctx) == after_donation(
            *old(ctx),
            amount,
            badge is Some,
        ),
        outcome is Err ==> *final(ctx) == *old(ctx),
{
    if amount == 0 {
        return Err(Failure::Rejected(ErrorCode::InvalidAmount));
    }
    match derived {
        None => { return Err(Failure::Rejected(ErrorCode::InvalidCampaignPDA)); },
        Some((address, _)) => {
            if address != ctx.campaign.key {
                proof {
                    if address@ == ctx.campaign.key@ {
                        lemma_address_by_view(address, ctx.campaign.key);
                    }
                }
                return Err(Failure::Rejected(ErrorCode::InvalidCampaignPDA));
            }
        },
    }
    if ctx.signer.lamports < amount {
        return Err(Failure::Custody(CustodyError::InsufficientFunds));
    }
    let left: u64 = ctx.signer.lamports - amount;
    let received: u64 = match ctx.campaign.received.checked_add(amount) {
        None => { return Err(Failure::Custody(CustodyError::Overflow)); },
        Some(sum) => sum,
    };
    let raised: u64 = match ctx.campaign.data.raised.checked_add(amount) {
        None => { return Err(Failure::Rejected(ErrorCode::Overflow)); },
        Some(sum) => sum,
    };
    let due = match ctx.policy {
        IssuancePolicy::PerDonation => true,
        IssuancePolicy::PerDonor => ctx.signer.badges == 0,
    };
    if !due {
        ctx.signer.lamports = left;
        ctx.campaign.received = received;
        ctx.campaign.data.raised = raised;
        return Ok(None);
    }
    let space = badge_mint_space();
    if left < ctx.mint_rent {
        return Err(Failure::Custody(CustodyError::InsufficientFunds));
    }
    let existing: u64 = match ctx.token_account_balance {
        Some(units) => units,
        None => 0,
    };
    let balance: u64 = match existing.checked_add(1) {
        None => { return Err(Failure::Custody(CustodyError::Overflow)); },
        Some(sum) => sum,
    };
    let badges: u64 = match ctx.signer.badges.checked_add(1) {
        None => { return Err(Failure::Rejected(ErrorCode::Overflow)); },
        Some(sum) => sum,
    };
    let badge = Badge {
        mint: ctx.mint,
        mint_authority: ctx.signer.key,
        space,
        rent: ctx.mint_rent,
        decimals: 0,
        supply: 1,
        non_transferable: true,
        token_account: ctx.token_account,
        holder: ctx.signer.key,
        balance,
    };
    ctx.signer.lamports = left - ctx.mint_rent;
    ctx.signer.badges = badges;
    ctx.campaign.received = received;
    ctx.campaign.data.raised = raised;
    ctx.token_account_balance = Some(balance);
    Ok(Some(badge))
}

/// Donate to a campaign and receive a patron badge: re-derives the escrow
/// identity from the stored owner and title, checks it against the
/// campaign's address, and settles the donation.
pub fn donate(ctx: &mut Donate, amount: u64) -> (outcome: Result<Option<Badge>, Failure>)
    ensures
        outcome == donation_verdict(
            *old(ctx),
            escrow_identity(
                old(ctx).program_id@,
                old(ctx).campaign.data.authority@,
                encode_utf8(old(ctx).campaign.data.title@),
            ),
            amount,
        ),
        outcome matches Ok(badge) ==> *final(ctx) == after_donation(
            *old(ctx),
            amount,
            badge is Some,
        ),
        outcome is Err ==> *final(ctx) == *old(ctx),
{
    if amount == 0 {
        return Err(Failure::Rejected(ErrorCode::InvalidAmount));
    }
    let derived = find_escrow(
        &ctx.program_id,
        &ctx.campaign.data.authority,
        ctx.campaign.data.title.as_str(),
    );
    accept_donation(ctx, derived, amount)
}

} // verus!
