use scholr_link::address::Address;
use scholr_link::custody::{CustodyError, TokenAccount};
use scholr_link::escrow::{
    accept_donation, check_donation, close_campaign, donate, initialize_campaign, CloseCampaign,
    Donate, ErrorCode, Failure, InitializeCampaign,
};

const NOW: i64 = 1_700_000_000;
const DEADLINE: i64 = NOW + 3600;

fn addr(tag: u8) -> Address {
    Address::new([tag; 32])
}

fn fresh(donor_funds: u64) -> Donate {
    let creation = InitializeCampaign {
        program_id: addr(1),
        authority: addr(2),
        vault: addr(3),
        usdc_mint: addr(4),
        now: NOW,
    };
    let escrow = initialize_campaign(
        &creation,
        String::from("books"),
        String::from("Books"),
        String::from("https://example.org"),
        1000,
        DEADLINE,
    )
    .unwrap();
    Donate {
        program_id: addr(1),
        closure_blocks_donation: true,
        now: NOW + 10,
        donor: addr(11),
        donor_token_account: TokenAccount {
            key: addr(10),
            mint: addr(4),
            owner: addr(11),
            amount: donor_funds,
        },
        campaign: escrow.campaign,
        vault: escrow.vault,
    }
}

fn rejected(code: ErrorCode) -> Result<u64, Failure> {
    Err(Failure::Rejected(code))
}

fn untouched(ctx: &Donate, raised: u64, vault: u64, donor: u64) {
    assert_eq!(ctx.campaign.data.raised, raised);
    assert_eq!(ctx.vault.amount, vault);
    assert_eq!(ctx.donor_token_account.amount, donor);
}

#[test]
fn raised_is_the_sum_of_accepted_donations() {
    let mut ctx = fresh(10_000);
    let gifts = [1u64, 250, 3, 4000, 77];
    let mut sum = 0u64;
    for gift in gifts {
        sum += gift;
        assert_eq!(donate(&mut ctx, gift), Ok(sum));
        assert_eq!(ctx.campaign.data.raised, sum);
        assert_eq!(ctx.vault.amount, sum);
        assert_eq!(ctx.donor_token_account.amount, 10_000 - sum);
    }
    assert_eq!(sum, 4331);
}

#[test]
fn refused_donations_do_not_count() {
    let mut ctx = fresh(100);
    assert_eq!(donate(&mut ctx, 60), Ok(60));
    assert_eq!(donate(&mut ctx, 0), rejected(ErrorCode::InvalidAmount));
    assert_eq!(donate(&mut ctx, 41), Err(Failure::Custody(CustodyError::InsufficientFunds)));
    assert_eq!(donate(&mut ctx, 40), Ok(100));
    untouched(&ctx, 100, 100, 0);
}

#[test]
fn donation_that_would_overflow_the_total_is_refused() {
    let mut ctx = fresh(100);
    ctx.campaign.data.raised = u64::MAX - 10;
    assert_eq!(donate(&mut ctx, 11), rejected(ErrorCode::Overflow));
    untouched(&ctx, u64::MAX - 10, 0, 100);
    assert_eq!(donate(&mut ctx, 10), Ok(u64::MAX));
    untouched(&ctx, u64::MAX, 10, 90);
    assert_eq!(donate(&mut ctx, 1), rejected(ErrorCode::Overflow));
    untouched(&ctx, u64::MAX, 10, 90);
}

#[test]
fn donation_is_refused_from_the_deadline_on() {
    let mut ctx = fresh(100);
    ctx.now = DEADLINE;
    assert_eq!(donate(&mut ctx, 1), rejected(ErrorCode::CampaignExpired));
    ctx.now = i64::MAX;
    assert_eq!(donate(&mut ctx, 1), rejected(ErrorCode::CampaignExpired));
    untouched(&ctx, 0, 0, 100);
    ctx.now = DEADLINE - 1;
    assert_eq!(donate(&mut ctx, 1), Ok(1));
    ctx.now = i64::MIN;
    assert_eq!(donate(&mut ctx, 1), Ok(2));
}

#[test]
fn closed_campaign_refuses_donations_whatever_the_clock() {
    let ctx = fresh(100);
    let mut closing = CloseCampaign { authority: addr(2), campaign: ctx.campaign.clone() };
    assert_eq!(close_campaign(&mut closing), Ok(()));
    for now in [i64::MIN, NOW, DEADLINE - 1, DEADLINE, i64::MAX] {
        let mut after = Donate { now, campaign: closing.campaign.clone(), ..ctx.clone() };
        assert_eq!(donate(&mut after, 5), rejected(ErrorCode::CampaignInactive));
        untouched(&after, 0, 0, 100);
    }
}

#[test]
fn closed_campaign_takes_donations_where_closure_does_not_block() {
    let ctx = fresh(100);
    let mut closing = CloseCampaign { authority: addr(2), campaign: ctx.campaign.clone() };
    assert_eq!(close_campaign(&mut closing), Ok(()));
    let mut after = Donate {
        closure_blocks_donation: false,
        campaign: closing.campaign.clone(),
        ..ctx.clone()
    };
    assert_eq!(donate(&mut after, 5), Ok(5));
    assert!(!after.campaign.data.is_active);
    after.now = DEADLINE;
    assert_eq!(donate(&mut after, 5), rejected(ErrorCode::CampaignExpired));
}

#[test]
fn donation_into_another_vault_is_refused() {
    let mut ctx = fresh(100);
    ctx.vault.key = addr(33);
    assert_eq!(donate(&mut ctx, 5), rejected(ErrorCode::InvalidVault));
    assert_eq!(donate(&mut ctx, 0), rejected(ErrorCode::InvalidVault));
    untouched(&ctx, 0, 0, 100);
}

#[test]
fn donation_to_a_record_at_the_wrong_address_is_refused() {
    let mut moved = fresh(100);
    moved.campaign.key = addr(50);
    assert_eq!(donate(&mut moved, 5), rejected(ErrorCode::InvalidCampaignPDA));
    untouched(&moved, 0, 0, 100);

    let mut renamed = fresh(100);
    renamed.campaign.data.campaign_id = String::from("boots");
    assert_eq!(donate(&mut renamed, 5), rejected(ErrorCode::InvalidCampaignPDA));

    let mut reowned = fresh(100);
    reowned.campaign.data.authority = addr(12);
    assert_eq!(donate(&mut reowned, 5), rejected(ErrorCode::InvalidCampaignPDA));

    let mut elsewhere = fresh(100);
    elsewhere.program_id = addr(90);
    assert_eq!(donate(&mut elsewhere, 5), rejected(ErrorCode::InvalidCampaignPDA));
}

#[test]
fn donation_checks_the_address_but_not_the_bump() {
    let mut ctx = fresh(100);
    let key = ctx.campaign.key;
    assert_eq!(accept_donation(&mut ctx, Some((key, 0)), 5), Ok(5));
    assert_eq!(accept_donation(&mut ctx, Some((addr(50), 255)), 5), rejected(ErrorCode::InvalidCampaignPDA));
    assert_eq!(accept_donation(&mut ctx, None, 5), rejected(ErrorCode::InvalidCampaignPDA));
    untouched(&ctx, 5, 5, 95);
}

#[test]
fn donation_needs_the_donors_own_account() {
    let mut ctx = fresh(100);
    ctx.donor = addr(12);
    assert_eq!(donate(&mut ctx, 5), Err(Failure::Custody(CustodyError::OwnerMismatch)));
    untouched(&ctx, 0, 0, 100);
}

#[test]
fn donation_in_another_token_is_refused_by_custody() {
    let mut ctx = fresh(100);
    ctx.donor_token_account.mint = addr(5);
    assert_eq!(donate(&mut ctx, 5), Err(Failure::Custody(CustodyError::MintMismatch)));
    untouched(&ctx, 0, 0, 100);
}

#[test]
fn donation_that_would_overflow_the_vault_is_refused_by_custody() {
    let mut ctx = fresh(100);
    ctx.vault.amount = u64::MAX;
    assert_eq!(donate(&mut ctx, 1), Err(Failure::Custody(CustodyError::Overflow)));
    untouched(&ctx, 0, u64::MAX, 100);
}

#[test]
fn donation_reports_the_first_reason() {
    let mut ctx = fresh(0);
    ctx.campaign.data.is_active = false;
    ctx.now = DEADLINE;
    ctx.campaign.key = addr(50);
    ctx.campaign.data.raised = u64::MAX;
    assert_eq!(check_donation(&ctx, 0), Err(ErrorCode::InvalidAmount));
    assert_eq!(donate(&mut ctx, 0), rejected(ErrorCode::InvalidAmount));
    assert_eq!(donate(&mut ctx, 1), rejected(ErrorCode::CampaignInactive));
    ctx.campaign.data.is_active = true;
    assert_eq!(check_donation(&ctx, 1), Err(ErrorCode::CampaignExpired));
    assert_eq!(donate(&mut ctx, 1), rejected(ErrorCode::CampaignExpired));
    ctx.now = NOW;
    assert_eq!(check_donation(&ctx, 1), Ok(()));
    assert_eq!(donate(&mut ctx, 1), rejected(ErrorCode::InvalidCampaignPDA));
    ctx.campaign = fresh(0).campaign;
    ctx.campaign.data.raised = u64::MAX;
    assert_eq!(donate(&mut ctx, 1), Err(Failure::Custody(CustodyError::InsufficientFunds)));
    ctx.donor_token_account.amount = 1;
    assert_eq!(donate(&mut ctx, 1), rejected(ErrorCode::Overflow));
    untouched(&ctx, u64::MAX, 0, 1);
}

#[test]
fn donations_may_exceed_the_goal() {
    let mut ctx = fresh(u64::MAX);
    assert_eq!(ctx.campaign.data.goal, 1000);
    assert_eq!(donate(&mut ctx, 1000), Ok(1000));
    assert_eq!(donate(&mut ctx, u64::MAX - 1000), Ok(u64::MAX));
    assert_eq!(ctx.campaign.data.goal, 1000);
}
