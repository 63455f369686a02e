use scholr_link::address::{find_escrow, Address};
use scholr_link::custody::CustodyError;
use scholr_link::escrow::{ErrorCode, Failure};
use scholr_link::patron::{
    accept_donation, badge_mint_space, create_campaign, donate, initialize_campaign,
    validate_creation, Badge, Donate, InitializeCampaign, IssuancePolicy, Patron,
    BADGE_MINT_SPACE,
};
use spl_token_2022::extension::ExtensionType;
use spl_token_2022::state::Mint;

const RENT: u64 = 2_074_080;

fn addr(tag: u8) -> Address {
    Address::new([tag; 32])
}

fn fresh(policy: IssuancePolicy, funds: u64) -> Donate {
    let creation = InitializeCampaign { program_id: addr(1), signer: addr(2) };
    let campaign = initialize_campaign(
        &creation,
        String::from("Books"),
        1000,
        String::from("https://example.org"),
    )
    .unwrap();
    Donate {
        program_id: addr(1),
        policy,
        campaign,
        signer: Patron { key: addr(11), lamports: funds, badges: 0 },
        mint: addr(30),
        token_account: addr(31),
        token_account_balance: None,
        mint_rent: RENT,
    }
}

fn next_badge(ctx: &mut Donate, tag: u8) {
    ctx.mint = addr(tag);
    ctx.token_account = addr(tag + 1);
    ctx.token_account_balance = None;
}

fn rejected(code: ErrorCode) -> Result<Option<Badge>, Failure> {
    Err(Failure::Rejected(code))
}

#[test]
fn badge_class_takes_170_bytes() {
    assert_eq!(BADGE_MINT_SPACE, 170);
    assert_eq!(badge_mint_space(), 170);
    let direct =
        ExtensionType::try_calculate_account_len::<Mint>(&[ExtensionType::NonTransferable]);
    assert_eq!(direct.ok(), Some(170usize));
}

#[test]
fn patron_campaign_lives_at_the_identity_of_owner_and_title() {
    let creation = InitializeCampaign { program_id: addr(1), signer: addr(2) };
    let campaign = initialize_campaign(
        &creation,
        String::from("Books"),
        1000,
        String::from("https://example.org"),
    )
    .unwrap();
    let (address, bump) = find_escrow(&addr(1), &addr(2), "Books").unwrap();
    assert_eq!(campaign.key, address);
    assert_eq!(campaign.received, 0);
    assert_eq!(campaign.data.bump, bump);
    assert_eq!(campaign.data.authority, addr(2));
    assert_eq!(campaign.data.title, "Books");
    assert_eq!(campaign.data.goal, 1000);
    assert_eq!(campaign.data.raised, 0);
    assert_eq!(campaign.data.metadata_uri, "https://example.org");
}

#[test]
fn patron_creation_checks_title_uri_and_goal() {
    assert_eq!(validate_creation(&"t".repeat(65), &"u".repeat(257), 0), Err(ErrorCode::TitleTooLong));
    assert_eq!(validate_creation("t", &"u".repeat(257), 0), Err(ErrorCode::MetadataUriTooLong));
    assert_eq!(validate_creation("t", "u", 0), Err(ErrorCode::InvalidGoal));
    assert_eq!(validate_creation(&"t".repeat(64), &"u".repeat(256), 1), Ok(()));
    let creation = InitializeCampaign { program_id: addr(1), signer: addr(2) };
    let none = create_campaign(&creation, None, String::from("t"), 1, String::from("u"));
    assert_eq!(none.err(), Some(ErrorCode::InvalidCampaignPDA));
    let unseedable = initialize_campaign(&creation, "t".repeat(33), 1, String::from("u"));
    assert_eq!(unseedable.err(), Some(ErrorCode::InvalidCampaignPDA));
    let zero = initialize_campaign(&creation, String::from("t"), 0, String::from("u"));
    assert_eq!(zero.err(), Some(ErrorCode::InvalidGoal));
}

#[test]
fn donation_earns_one_non_transferable_badge() {
    let mut ctx = fresh(IssuancePolicy::PerDonation, 10_000_000);
    let badge = donate(&mut ctx, 600).unwrap().unwrap();
    assert_eq!(badge.mint, addr(30));
    assert_eq!(badge.mint_authority, addr(11));
    assert_eq!(badge.space, 170);
    assert_eq!(badge.rent, RENT);
    assert_eq!(badge.decimals, 0);
    assert_eq!(badge.supply, 1);
    assert!(badge.non_transferable);
    assert_eq!(badge.token_account, addr(31));
    assert_eq!(badge.holder, addr(11));
    assert_eq!(badge.balance, 1);
    assert_eq!(ctx.campaign.data.raised, 600);
    assert_eq!(ctx.campaign.received, 600);
    assert_eq!(ctx.signer.lamports, 10_000_000 - 600 - RENT);
    assert_eq!(ctx.signer.badges, 1);
    assert_eq!(ctx.token_account_balance, Some(1));
}

#[test]
fn every_donation_earns_a_badge_under_the_per_donation_policy() {
    let mut ctx = fresh(IssuancePolicy::PerDonation, 10_000_000);
    assert!(donate(&mut ctx, 600).unwrap().is_some());
    next_badge(&mut ctx, 40);
    let second = donate(&mut ctx, 500).unwrap().unwrap();
    assert_eq!(second.mint, addr(40));
    assert_eq!(second.balance, 1);
    assert_eq!(ctx.signer.badges, 2);
    assert_eq!(ctx.campaign.data.raised, 1100);
    assert_eq!(ctx.signer.lamports, 10_000_000 - 1100 - 2 * RENT);
}

#[test]
fn only_the_first_donation_earns_a_badge_under_the_per_donor_policy() {
    let mut ctx = fresh(IssuancePolicy::PerDonor, 10_000_000);
    assert!(donate(&mut ctx, 600).unwrap().is_some());
    next_badge(&mut ctx, 40);
    assert_eq!(donate(&mut ctx, 500), Ok(None));
    assert_eq!(ctx.signer.badges, 1);
    assert_eq!(ctx.token_account_balance, None);
    assert_eq!(ctx.campaign.data.raised, 1100);
    assert_eq!(ctx.campaign.received, 1100);
    assert_eq!(ctx.signer.lamports, 10_000_000 - 1100 - RENT);
}

#[test]
fn creating_an_existing_holding_account_changes_nothing() {
    let mut ctx = fresh(IssuancePolicy::PerDonation, 10_000_000);
    ctx.token_account_balance = Some(0);
    let badge = donate(&mut ctx, 600).unwrap().unwrap();
    assert_eq!(badge.balance, 1);
    assert_eq!(ctx.token_account_balance, Some(1));
    let mut held = fresh(IssuancePolicy::PerDonation, 10_000_000);
    held.token_account_balance = Some(4);
    assert_eq!(donate(&mut held, 600).unwrap().unwrap().balance, 5);
}

#[test]
fn patron_donation_needs_amount_and_deposit() {
    let mut ctx = fresh(IssuancePolicy::PerDonation, 1000 + RENT);
    assert_eq!(donate(&mut ctx, 1001), Err(Failure::Custody(CustodyError::InsufficientFunds)));
    assert_eq!(ctx.signer.lamports, 1000 + RENT);
    assert_eq!(ctx.campaign.data.raised, 0);
    assert_eq!(ctx.signer.badges, 0);
    assert_eq!(ctx.token_account_balance, None);
    assert!(donate(&mut ctx, 1000).unwrap().is_some());
    assert_eq!(ctx.signer.lamports, 0);
    let mut poor = fresh(IssuancePolicy::PerDonation, 999);
    assert_eq!(donate(&mut poor, 1000), Err(Failure::Custody(CustodyError::InsufficientFunds)));
    let mut known = fresh(IssuancePolicy::PerDonor, 1000);
    known.signer.badges = 1;
    assert_eq!(donate(&mut known, 1000), Ok(None));
    assert_eq!(known.signer.lamports, 0);
}

#[test]
fn patron_donation_refuses_overflow_and_bad_input() {
    let mut ctx = fresh(IssuancePolicy::PerDonation, 10_000_000);
    assert_eq!(donate(&mut ctx, 0), rejected(ErrorCode::InvalidAmount));
    ctx.campaign.data.raised = u64::MAX;
    assert_eq!(donate(&mut ctx, 1), rejected(ErrorCode::Overflow));
    ctx.campaign.data.raised = 0;
    ctx.campaign.received = u64::MAX;
    assert_eq!(donate(&mut ctx, 1), Err(Failure::Custody(CustodyError::Overflow)));
    ctx.campaign.received = 0;
    ctx.token_account_balance = Some(u64::MAX);
    assert_eq!(donate(&mut ctx, 1), Err(Failure::Custody(CustodyError::Overflow)));
    ctx.token_account_balance = None;
    ctx.signer.badges = u64::MAX;
    assert_eq!(donate(&mut ctx, 1), rejected(ErrorCode::Overflow));
    assert_eq!(ctx.signer.lamports, 10_000_000);
    assert_eq!(ctx.campaign.data.raised, 0);
    ctx.signer.badges = 0;
    ctx.campaign.key = addr(50);
    assert_eq!(donate(&mut ctx, 1), rejected(ErrorCode::InvalidCampaignPDA));
    assert_eq!(accept_donation(&mut ctx, None, 1), rejected(ErrorCode::InvalidCampaignPDA));
    assert!(accept_donation(&mut ctx, Some((addr(50), 3)), 1).unwrap().is_some());
}
