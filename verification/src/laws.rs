//! What holds of the lifecycle as a whole, proved from the verdicts that the
//! operations' contracts state.

use crate::address::{escrow_credential, escrow_identity};
use crate::custody::transfer_verdict;
use crate::escrow::{
    after_closure, after_donation, after_withdrawal, closure_verdict, creation_verdict,
    donation_verdict, is_creation_outcome, withdrawal_verdict, CloseCampaign, Donate, ErrorCode,
    Escrow, Failure, InitializeCampaign, Withdraw,
};
use crate::patron;
use vstd::prelude::*;
use vstd::utf8::encode_utf8;

verus! {

/// The sum of a sequence of amounts.
pub open spec fn total(amounts: Seq<u64>) -> int
    decreases amounts.len(),
{
    if amounts.len() == 0 {
        0
    } else {
        total(amounts.drop_last()) + amounts.last()
    }
}

/// A run of accepted donations to one campaign: donation `i` gives
/// `amounts[i]` in the accounts `steps[i]`, is accepted when the derivation
/// gives `derived[i]`, and leaves the record and the vault that the next
/// donation finds. Donors and the clock may differ from one to the next.
pub open spec fn accepted_run(
    steps: Seq<Donate>,
    derived: Seq<Option<(Seq<u8>, u8)>>,
    amounts: Seq<u64>,
) -> bool {
    &&& steps.len() == amounts.len()
    &&& steps.len() == derived.len()
    &&& forall|i: int|
        0 <= i < steps.len() ==> (#[trigger] donation_verdict(steps[i], derived[i], amounts[i]))
            is Ok
    &&& forall|i: int|
        0 <= i < steps.len() - 1 ==> {
            &&& (#[trigger] steps[i + 1]).campaign == after_donation(
                steps[i],
                amounts[i],
            ).campaign
            &&& steps[i + 1].vault == after_donation(steps[i], amounts[i]).vault
        }
}

/// A campaign that was created lives at the escrow identity that its stored
/// owner and identifier derive, and that identity is the one party its vault
/// obeys. Acceptable inputs create a campaign exactly when the derivation
/// finds an address.
pub proof fn law_vault_obeys_escrow_identity(
    outcome: Result<Escrow, ErrorCode>,
    ctx: InitializeCampaign,
    campaign_id: String,
    title: String,
    metadata_uri: String,
    goal: u64,
    deadline: i64,
)
    requires
        creation_verdict(campaign_id@, title@, metadata_uri@, goal, deadline, ctx.now) is Ok,
        is_creation_outcome(
            outcome,
            ctx,
            escrow_identity(ctx.program_id@, ctx.authority@, encode_utf8(campaign_id@)),
            campaign_id,
            title,
            metadata_uri,
            goal,
            deadline,
        ),
    ensures
        outcome is Ok <==> escrow_identity(
            ctx.program_id@,
            ctx.authority@,
            encode_utf8(campaign_id@),
        ) is Some,
        outcome matches Ok(escrow) ==> {
            &&& escrow_identity(
                ctx.program_id@,
                escrow.campaign.data.authority@,
                encode_utf8(escrow.campaign.data.campaign_id@),
            ) == Some((escrow.vault.owner@, escrow.campaign.data.bump))
            &&& escrow.vault.owner == escrow.campaign.key
            &&& escrow.vault.key == escrow.campaign.data.vault
        },
{
}

/// After any run of accepted donations the total raised has grown by exactly
/// the sum of the amounts, and so has the vault's balance: nothing is lost
/// and nothing counted twice. Starting from a new campaign, the total raised
/// is that sum.
pub proof fn law_raised_is_sum_of_donations(
    steps: Seq<Donate>,
    derived: Seq<Option<(Seq<u8>, u8)>>,
    amounts: Seq<u64>,
)
    requires
        accepted_run(steps, derived, amounts),
        steps.len() > 0,
    ensures
        after_donation(steps.last(), amounts.last()).campaign.data.raised
            == steps[0].campaign.data.raised + total(amounts),
        after_donation(steps.last(), amounts.last()).vault.amount == steps[0].vault.amount + total(
            amounts,
        ),
        steps[0].campaign.data.raised == 0 ==> after_donation(
            steps.last(),
            amounts.last(),
        ).campaign.data.raised == total(amounts),
    decreases steps.len(),
{
    let n = steps.len() as int;
    assert(donation_verdict(steps[n - 1], derived[n - 1], amounts[n - 1]) is Ok);
    if n == 1 {
        assert(amounts.drop_last().len() == 0);
        assert(total(amounts.drop_last()) == 0);
    } else {
        let steps0 = steps.drop_last();
        let derived0 = derived.drop_last();
        let amounts0 = amounts.drop_last();
        assert(accepted_run(steps0, derived0, amounts0)) by {
            assert forall|i: int| 0 <= i < steps0.len() implies (#[trigger] donation_verdict(
                steps0[i],
                derived0[i],
                amounts0[i],
            )) is Ok by {
                assert(donation_verdict(steps[i], derived[i], amounts[i]) is Ok);
            }
            assert forall|i: int| 0 <= i < steps0.len() - 1 implies {
                &&& (#[trigger] steps0[i + 1]).campaign == after_donation(
                    steps0[i],
                    amounts0[i],
                ).campaign
                &&& steps0[i + 1].vault == after_donation(steps0[i], amounts0[i]).vault
            } by {
                assert(steps[i + 1].campaign == after_donation(steps[i], amounts[i]).campaign);
            }
        }
        law_raised_is_sum_of_donations(steps0, derived0, amounts0);
        assert(steps[(n - 2) + 1].campaign == after_donation(
            steps[n - 2],
            amounts[n - 2],
        ).campaign);
        assert(steps0.last() == steps[n - 2]);
        assert(amounts0.last() == amounts[n - 2]);
    }
}

/// A donation whose new total would not fit the integer is never accepted,
/// and where nothing else stands against it, it is refused as an overflow:
/// the total never wraps.
pub proof fn law_overflow_is_refused(ctx: Donate, derived: Option<(Seq<u8>, u8)>, amount: u64)
    requires
        ctx.campaign.data.raised + amount > u64::MAX,
    ensures
        donation_verdict(ctx, derived, amount) is Err,
        ({
            &&& ctx.vault.key == ctx.campaign.data.vault
            &&& (ctx.campaign.data.is_active || !ctx.closure_blocks_donation)
            &&& ctx.now < ctx.campaign.data.deadline
            &&& derived matches Some((address, _))
            &&& address == ctx.campaign.key@
            &&& transfer_verdict(ctx.donor_token_account, ctx.vault, ctx.donor, amount) is Ok
        }) ==> donation_verdict(ctx, derived, amount) == Err::<u64, Failure>(
            Failure::Rejected(ErrorCode::Overflow),
        ),
{
}

/// The deadline gates donations: none is accepted at or after it, and one
/// that is otherwise in order is refused as expired; the same donation is
/// accepted at every instant before the deadline, the last one included.
pub proof fn law_deadline_gates_donations(
    ctx: Donate,
    derived: Option<(Seq<u8>, u8)>,
    amount: u64,
    instant: i64,
)
    ensures
        instant >= ctx.campaign.data.deadline ==> donation_verdict(
            Donate { now: instant, ..ctx },
            derived,
            amount,
        ) is Err,
        ({
            &&& instant >= ctx.campaign.data.deadline
            &&& ctx.vault.key == ctx.campaign.data.vault
            &&& amount > 0
            &&& (ctx.campaign.data.is_active || !ctx.closure_blocks_donation)
        }) ==> donation_verdict(Donate { now: instant, ..ctx }, derived, amount) == Err::<
            u64,
            Failure,
        >(Failure::Rejected(ErrorCode::CampaignExpired)),
        ({
            &&& instant < ctx.campaign.data.deadline
            &&& ctx.vault.key == ctx.campaign.data.vault
            &&& amount > 0
            &&& (ctx.campaign.data.is_active || !ctx.closure_blocks_donation)
            &&& derived matches Some((address, _))
            &&& address == ctx.campaign.key@
            &&& transfer_verdict(ctx.donor_token_account, ctx.vault, ctx.donor, amount) is Ok
            &&& ctx.campaign.data.raised + amount <= u64::MAX
        }) ==> donation_verdict(Donate { now: instant, ..ctx }, derived, amount) == Ok::<
            u64,
            Failure,
        >((ctx.campaign.data.raised + amount) as u64),
{
}

/// Where closure blocks donations, a closed campaign accepts none, whatever
/// the clock says, and a donation that names the right vault and a positive
/// amount is refused as inactive. A campaign is inactive from its closure
/// on: closing makes it so and no operation reverses it.
pub proof fn law_closed_campaign_refuses_donations(
    ctx: Donate,
    derived: Option<(Seq<u8>, u8)>,
    amount: u64,
)
    requires
        !ctx.campaign.data.is_active,
        ctx.closure_blocks_donation,
    ensures
        donation_verdict(ctx, derived, amount) is Err,
        ctx.vault.key == ctx.campaign.data.vault && amount > 0 ==> donation_verdict(
            ctx,
            derived,
            amount,
        ) == Err::<u64, Failure>(Failure::Rejected(ErrorCode::CampaignInactive)),
{
}

/// Nobody but the stored owner withdraws: for every other caller, every
/// amount and every credential the withdrawal is refused as unauthorized.
pub proof fn law_only_authority_withdraws(ctx: Withdraw, credential: Option<Seq<u8>>, amount: u64)
    requires
        ctx.authority != ctx.campaign.data.authority,
    ensures
        withdrawal_verdict(ctx, credential, amount) == Err::<(), Failure>(
            Failure::Rejected(ErrorCode::Unauthorized),
        ),
{
}

/// Funds leave a vault only on the word of the escrow identity: a withdrawal
/// that goes through was asked for by the owner, with a credential that is
/// both the campaign's address and the vault's controller, and took no more
/// than the vault held.
pub proof fn law_vault_pays_on_escrow_identity_only(
    ctx: Withdraw,
    credential: Option<Seq<u8>>,
    amount: u64,
)
    requires
        withdrawal_verdict(ctx, credential, amount) is Ok,
    ensures
        ctx.authority == ctx.campaign.data.authority,
        credential == Some(ctx.campaign.key@),
        ctx.vault.owner == ctx.campaign.key,
        amount <= ctx.vault.amount,
        after_withdrawal(ctx, amount).campaign == ctx.campaign,
        after_withdrawal(ctx, amount).vault.amount + after_withdrawal(
            ctx,
            amount,
        ).authority_token_account.amount == ctx.vault.amount + ctx.authority_token_account.amount,
{
}

/// The owner of a campaign whose stored seeds reproduce its address can
/// withdraw whatever its vault holds: any amount up to the vault's balance,
/// zero included, into an account of the same kind of token that has room
/// for it. Neither the deadline nor a closure stands in the way.
pub proof fn law_owner_withdraws_up_to_balance(ctx: Withdraw, amount: u64)
    requires
        ctx.campaign.reproducible(ctx.program_id),
        ctx.authority == ctx.campaign.data.authority,
        ctx.vault.owner == ctx.campaign.key,
        ctx.vault.mint == ctx.authority_token_account.mint,
        amount <= ctx.vault.amount,
        ctx.authority_token_account.amount + amount <= u64::MAX,
    ensures
        withdrawal_verdict(
            ctx,
            escrow_credential(
                ctx.program_id@,
                ctx.campaign.data.authority@,
                encode_utf8(ctx.campaign.data.campaign_id@),
                ctx.campaign.data.bump,
            ),
            amount,
        ) is Ok,
        after_withdrawal(ctx, amount).vault.amount == ctx.vault.amount - amount,
{
}

/// Closing is idempotent: the owner who closed may close again, and the
/// campaign is then as the first closure left it, inactive.
pub proof fn law_closure_is_idempotent(ctx: CloseCampaign)
    requires
        closure_verdict(ctx) is Ok,
    ensures
        closure_verdict(after_closure(ctx)) is Ok,
        after_closure(after_closure(ctx)) == after_closure(ctx),
        !after_closure(ctx).campaign.data.is_active,
{
}

/// No operation makes an inactive campaign active, nor touches what creation
/// fixed: owner, identifier, bump seed, goal, deadline and vault.
pub proof fn law_nothing_resurrects_a_campaign(
    donation: Donate,
    amount: u64,
    withdrawal: Withdraw,
    taken: u64,
    closing: CloseCampaign,
)
    ensures
        after_donation(donation, amount).campaign.data.is_active
            == donation.campaign.data.is_active,
        after_withdrawal(withdrawal, taken).campaign == withdrawal.campaign,
        !after_closure(closing).campaign.data.is_active,
        after_closure(closing).campaign.data.raised == closing.campaign.data.raised,
        after_donation(donation, amount).campaign.key == donation.campaign.key,
        after_donation(donation, amount).campaign.data.authority
            == donation.campaign.data.authority,
        after_donation(donation, amount).campaign.data.campaign_id
            == donation.campaign.data.campaign_id,
        after_donation(donation, amount).campaign.data.bump == donation.campaign.data.bump,
        after_donation(donation, amount).campaign.data.goal == donation.campaign.data.goal,
        after_donation(donation, amount).campaign.data.deadline
            == donation.campaign.data.deadline,
        after_donation(donation, amount).campaign.data.vault == donation.campaign.data.vault,
        after_closure(closing).campaign.key == closing.campaign.key,
        after_closure(closing).campaign.data.authority == closing.campaign.data.authority,
        after_closure(closing).campaign.data.deadline == closing.campaign.data.deadline,
        after_closure(closing).campaign.data.vault == closing.campaign.data.vault,
{
}

/// Every accepted donation of the patron variant that earns a badge mints
/// exactly one unit of a class that can never be transferred, to the donor.
/// Under the policy of one badge per donation every accepted donation earns
/// one; under the policy of one per donor a donor never holds more than one.
pub proof fn law_badge_issuance(
    ctx: patron::Donate,
    derived: Option<(Seq<u8>, u8)>,
    amount: u64,
)
    requires
        patron::donation_verdict(ctx, derived, amount) is Ok,
    ensures
        patron::donation_verdict(ctx, derived, amount) matches Ok(Some(badge)) ==> {
            &&& badge.supply == 1
            &&& badge.non_transferable
            &&& badge.holder == ctx.signer.key
            &&& badge.balance == patron::held(ctx) + 1
            &&& patron::after_donation(ctx, amount, true).signer.badges == ctx.signer.badges + 1
        },
        patron::donation_verdict(ctx, derived, amount) matches Ok(None) ==> {
            &&& ctx.policy == patron::IssuancePolicy::PerDonor
            &&& ctx.signer.badges > 0
            &&& patron::after_donation(ctx, amount, false).signer.badges == ctx.signer.badges
        },
        ctx.policy == patron::IssuancePolicy::PerDonation ==> patron::donation_verdict(
            ctx,
            derived,
            amount,
        ) matches Ok(Some(_)),
        ctx.policy == patron::IssuancePolicy::PerDonor && ctx.signer.badges <= 1
            ==> patron::after_donation(
            ctx,
            amount,
            patron::donation_verdict(ctx, derived, amount) matches Ok(Some(_)),
        ).signer.badges == 1,
{
}

} // verus!
