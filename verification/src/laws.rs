//! Laws of the core, proved from the operation contracts: the running total
//! is exactly the sum of the accepted investments, an overdrawn investment
//! is rejected as such, initialization is exactly-once, and acceptance of an
//! investment never depends on the goal or on what is already raised.

use vstd::prelude::*;

use crate::campaign::{
    initialize_accepted, initialize_error, invest_accepted, invest_error, invest_fits,
    invest_step, InitializeCampaign, Invest,
};
use crate::errors::CampaignError;

verus! {

/// The sum of a sequence of investment amounts.
pub open spec fn sum_of(amounts: Seq<u64>) -> int
    decreases amounts.len(),
{
    if amounts.len() == 0 {
        0
    } else {
        sum_of(amounts.drop_last()) + amounts.last()
    }
}

/// The context after a whole sequence of investments, each applied in turn.
pub open spec fn apply_investments(ctx: Invest, amounts: Seq<u64>) -> Invest
    decreases amounts.len(),
{
    if amounts.len() == 0 {
        ctx
    } else {
        invest_step(apply_investments(ctx, amounts.drop_last()), amounts.last())
    }
}

/// Every investment of the sequence is accepted, and fits, in the very
/// state it runs in — the state left by the investments before it.
pub open spec fn all_accepted(ctx: Invest, amounts: Seq<u64>) -> bool
    decreases amounts.len(),
{
    amounts.len() == 0 || {
        &&& all_accepted(ctx, amounts.drop_last())
        &&& 1 <= amounts.last()
        &&& invest_fits(apply_investments(ctx, amounts.drop_last()), amounts.last())
        &&& invest_accepted(apply_investments(ctx, amounts.drop_last()), amounts.last())
    }
}

/// Law: for every sequence of accepted investments, the campaign's running
/// total grows by exactly the sum of their amounts — each `invest` adds its
/// amount and nothing else ever moves the total.
pub proof fn lemma_raised_is_sum_of_investments(ctx: Invest, amounts: Seq<u64>)
    requires
        all_accepted(ctx, amounts),
    ensures
        apply_investments(ctx, amounts).campaign.raised == ctx.campaign.raised + sum_of(
            amounts,
        ),
    decreases amounts.len(),
{
    if amounts.len() > 0 {
        lemma_raised_is_sum_of_investments(ctx, amounts.drop_last());
    }
}

/// Law: on a freshly initialized campaign, whose total starts at 0, the
/// total after any sequence of accepted investments is exactly the sum of
/// their amounts.
pub proof fn lemma_fresh_campaign_raised_is_sum(ctx: Invest, amounts: Seq<u64>)
    requires
        ctx.campaign.raised == 0,
        all_accepted(ctx, amounts),
    ensures
        apply_investments(ctx, amounts).campaign.raised == sum_of(amounts),
{
    lemma_raised_is_sum_of_investments(ctx, amounts);
}

/// Law: conservation of issued equity against raised funds — one payment
/// unit into the vault for every equity unit issued. Over any sequence of
/// accepted investments, the vault balance, the investor's equity balance,
/// the mint's supply and the running total all grow by exactly the same
/// sum of amounts.
pub proof fn lemma_conservation_of_equity_and_payment(ctx: Invest, amounts: Seq<u64>)
    requires
        all_accepted(ctx, amounts),
    ensures
        apply_investments(ctx, amounts).vault_token_account.balance
            == ctx.vault_token_account.balance + sum_of(amounts),
        apply_investments(ctx, amounts).investor_equity_account.balance
            == ctx.investor_equity_account.balance + sum_of(amounts),
        apply_investments(ctx, amounts).token_mint.supply == ctx.token_mint.supply + sum_of(
            amounts,
        ),
        apply_investments(ctx, amounts).campaign.raised == ctx.campaign.raised + sum_of(
            amounts,
        ),
    decreases amounts.len(),
{
    if amounts.len() > 0 {
        lemma_conservation_of_equity_and_payment(ctx, amounts.drop_last());
    }
}

/// Law: the running total never decreases, and everything set at creation —
/// creator, goal, equity mint, the account identities — is untouched by any
/// sequence of accepted investments.
pub proof fn lemma_investments_only_grow_the_total(ctx: Invest, amounts: Seq<u64>)
    requires
        all_accepted(ctx, amounts),
    ensures
        apply_investments(ctx, amounts).campaign.raised >= ctx.campaign.raised,
        apply_investments(ctx, amounts).campaign.creator == ctx.campaign.creator,
        apply_investments(ctx, amounts).campaign.goal == ctx.campaign.goal,
        apply_investments(ctx, amounts).campaign.token_mint == ctx.campaign.token_mint,
        apply_investments(ctx, amounts).campaign_address == ctx.campaign_address,
        apply_investments(ctx, amounts).investor == ctx.investor,
    decreases amounts.len(),
{
    if amounts.len() > 0 {
        lemma_investments_only_grow_the_total(ctx, amounts.drop_last());
    }
}

/// Law: an investment larger than the investor's payment balance is never
/// accepted, and the reason reported is `InsufficientBalance`. By the
/// contract of `invest`, such a call leaves the campaign record, the vault
/// and every other account exactly as they were.
pub proof fn lemma_insufficient_balance_rejected(ctx: Invest, amount: u64)
    requires
        amount > ctx.investor_token_account.balance,
    ensures
        !invest_accepted(ctx, amount),
        invest_error(ctx, amount) == CampaignError::InsufficientBalance,
{
}

/// Law: initialization is exactly-once per slot. A slot that already holds
/// a record — as every slot after a successful initialization does — is
/// never accepted again, and a signing caller is told `AllocationConflict`.
/// By the contract of `initialize_campaign`, the rejected call leaves the
/// record it found untouched.
pub proof fn lemma_initialize_exactly_once(ctx: InitializeCampaign)
    requires
        ctx.campaign is Active,
    ensures
        !initialize_accepted(ctx),
        ctx.creator is ExternalSigner ==> initialize_error(ctx)
            == CampaignError::AllocationConflict,
{
}

/// Law: there is no funding cap. Whether an investment is accepted, and
/// which rejection it reports, never depends on the campaign's goal or on
/// how much is already raised: two contexts that agree on everything else
/// decide every amount alike, however far past the goal it goes.
pub proof fn lemma_no_funding_cap(near: Invest, past: Invest, amount: u64)
    requires
        past.campaign.creator == near.campaign.creator,
        past.campaign.token_mint == near.campaign.token_mint,
        past.campaign_address == near.campaign_address,
        past.investor == near.investor,
        past.investor_token_account == near.investor_token_account,
        past.vault_token_account == near.vault_token_account,
        past.investor_equity_account == near.investor_equity_account,
        past.token_mint == near.token_mint,
    ensures
        invest_accepted(past, amount) == invest_accepted(near, amount),
        invest_error(past, amount) == invest_error(near, amount),
{
}

} // verus!
