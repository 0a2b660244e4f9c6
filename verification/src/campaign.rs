//! The campaign record, its storage slot, and the two operations of the
//! core: seeding a campaign and processing one investment.

use vstd::prelude::*;

use crate::authority::{Authority, Pubkey};
use crate::errors::CampaignError;
use crate::token::{
    mint_accepted, mint_error, mint_to, transfer, transfer_accepted, transfer_error, Mint, MintTo,
    TokenAccount, Transfer,
};

verus! {

/// The persistent record of one fundraising campaign.
#[derive(Clone, Copy, PartialEq, Eq, Structural, Debug)]
pub struct Campaign {
    /// The account that initialized the campaign. Set once; immutable.
    pub creator: Pubkey,
    /// Target amount to raise, in base units of the payment token. Set once;
    /// immutable, and informational only: the core enforces no cap.
    pub goal: u64,
    /// Cumulative payment received, in the same base units. Starts at 0 and
    /// only ever grows, by exactly the amount of each accepted investment.
    pub raised: u64,
    /// The equity-token mint this campaign is authorized to issue from. Set
    /// once; immutable.
    pub token_mint: Pubkey,
}

/// The storage slot that holds the campaign record. A slot is either still
/// unallocated or holds an active record; an active slot can never be
/// re-initialized.
#[derive(Clone, Copy, PartialEq, Eq, Structural, Debug)]
pub enum CampaignSlot {
    /// The slot exists but no record has been written yet.
    Uninitialized,
    /// The record has been written; investments may be processed.
    Active(Campaign),
}

/// Everything an `initialize_campaign` call touches: the storage slot to
/// seed and the principal asking for it.
#[derive(Clone, Copy, PartialEq, Eq, Structural, Debug)]
pub struct InitializeCampaign {
    /// The storage slot the record is to be written into.
    pub campaign: CampaignSlot,
    /// The caller; initialization demands a verified signature.
    pub creator: Authority,
}

/// Whether initialization is accepted: the caller signs for itself and the
/// slot has not been allocated before.
pub open spec fn initialize_accepted(ctx: InitializeCampaign) -> bool {
    &&& ctx.creator is ExternalSigner
    &&& ctx.campaign is Uninitialized
}

/// The reason a rejected initialization reports: the signer is examined
/// first, the slot second.
pub open spec fn initialize_error(ctx: InitializeCampaign) -> CampaignError {
    if !(ctx.creator is ExternalSigner) {
        CampaignError::UnauthorizedSigner
    } else {
        CampaignError::AllocationConflict
    }
}

/// The record a successful initialization writes: creator from the signer,
/// goal and mint from the arguments, nothing raised yet.
pub open spec fn initialized_campaign(
    ctx: InitializeCampaign,
    goal: u64,
    token_mint: Pubkey,
) -> Campaign {
    Campaign { creator: ctx.creator.spec_key(), goal, raised: 0, token_mint }
}

/// Seed the campaign record: write creator, goal and equity mint into the
/// slot, with nothing raised yet.
///
/// Initialization is exactly-once per slot: a slot that already holds a
/// record is rejected with `AllocationConflict` and the record it holds is
/// untouched.
pub fn initialize_campaign(
    ctx: &mut InitializeCampaign,
    goal: u64,
    token_mint: Pubkey,
) -> (r: Result<(), CampaignError>)
    ensures
        match r {
            Ok(()) => {
                &&& initialize_accepted(*old(ctx))
                &&& final(ctx).campaign == CampaignSlot::Active(
                    initialized_campaign(*old(ctx), goal, token_mint),
                )
                &&& final(ctx).creator == old(ctx).creator
            },
            Err(e) => {
                &&& !initialize_accepted(*old(ctx))
                &&& e == initialize_error(*old(ctx))
                &&& *final(ctx) == *old(ctx)
            },
        },
{
    let creator_key = match ctx.creator {
        Authority::ExternalSigner(k) => k,
        Authority::ProgramDerivedAuthority(_) => {
            return Err(CampaignError::UnauthorizedSigner);
        },
    };
    match ctx.campaign {
        CampaignSlot::Active(_) => Err(CampaignError::AllocationConflict),
        CampaignSlot::Uninitialized => {
            ctx.campaign = CampaignSlot::Active(
                Campaign { creator: creator_key, goal, raised: 0, token_mint },
            );
            Ok(())
        },
    }
}

/// Everything an `invest` call touches: the active campaign record and its
/// own address, the investor, the two payment accounts, the investor's
/// equity account, and the equity mint.
#[derive(Clone, Copy, PartialEq, Eq, Structural, Debug)]
pub struct Invest {
    /// The campaign being invested in; must already be initialized.
    pub campaign: Campaign,
    /// The address of the storage slot holding `campaign`. The record acts
    /// under this address when it authorizes the mint.
    pub campaign_address: Pubkey,
    /// The investor; investment demands the investor's verified signature.
    pub investor: Authority,
    /// The investor's payment-token account, debited by the investment.
    pub investor_token_account: TokenAccount,
    /// The campaign's payment-token vault, credited by the investment.
    pub vault_token_account: TokenAccount,
    /// The investor's equity-token account, credited one for one.
    pub investor_equity_account: TokenAccount,
    /// The ledger entry of the campaign's equity mint.
    pub token_mint: Mint,
}

impl Invest {
    /// The context is well formed when the mint handed in really is the one
    /// the campaign was seeded with.
    pub open spec fn wf(self) -> bool {
        self.token_mint.address == self.campaign.token_mint
    }

    /// The payment leg built by [`Self::into_transfer_to_vault_context`].
    pub open spec fn spec_transfer_to_vault_context(self) -> Transfer {
        Transfer {
            from: self.investor_token_account,
            to: self.vault_token_account,
            authority: self.investor,
        }
    }

    /// The issuance leg built by [`Self::into_mint_to_investor_context`].
    pub open spec fn spec_mint_to_investor_context(self) -> MintTo {
        MintTo {
            mint: self.token_mint,
            to: self.investor_equity_account,
            authority: Authority::ProgramDerivedAuthority(self.campaign_address),
        }
    }

    /// Assemble the payment leg: the investor's account pays the vault,
    /// under the investor's own signature.
    pub fn into_transfer_to_vault_context(&self) -> (leg: Transfer)
        ensures
            leg == self.spec_transfer_to_vault_context(),
    {
        Transfer {
            from: self.investor_token_account,
            to: self.vault_token_account,
            authority: self.investor,
        }
    }

    /// Assemble the issuance leg: the campaign's mint issues to the
    /// investor's equity account, authorized by the campaign record itself
    /// acting under its own address — not by the investor or the creator.
    pub fn into_mint_to_investor_context(&self) -> (leg: MintTo)
        ensures
            leg == self.spec_mint_to_investor_context(),
    {
        MintTo {
            mint: self.token_mint,
            to: self.investor_equity_account,
            authority: Authority::ProgramDerivedAuthority(self.campaign_address),
        }
    }
}

/// Whether an investment is accepted: the ledger accepts both legs — the
/// investor covers and signs the payment, the campaign record is the mint's
/// authority, and the equity account belongs to the campaign's mint.
///
/// Acceptance never reads `goal` or `raised`: there is no funding cap, and
/// investing beyond the goal is accepted like any other investment.
pub open spec fn invest_accepted(ctx: Invest, amount: u64) -> bool {
    &&& transfer_accepted(ctx.spec_transfer_to_vault_context(), amount)
    &&& mint_accepted(ctx.spec_mint_to_investor_context())
}

/// The reason a rejected investment reports: the payment leg is attempted
/// first, so its rejections come first.
pub open spec fn invest_error(ctx: Invest, amount: u64) -> CampaignError {
    if !transfer_accepted(ctx.spec_transfer_to_vault_context(), amount) {
        transfer_error(ctx.spec_transfer_to_vault_context(), amount)
    } else {
        mint_error(ctx.spec_mint_to_investor_context())
    }
}

/// No sum an accepted investment produces would overflow its 64-bit cell.
pub open spec fn invest_fits(ctx: Invest, amount: u64) -> bool {
    &&& ctx.campaign.raised + amount <= u64::MAX
    &&& ctx.vault_token_account.balance + amount <= u64::MAX
    &&& ctx.investor_equity_account.balance + amount <= u64::MAX
    &&& ctx.token_mint.supply + amount <= u64::MAX
}

/// The context after one accepted investment of `amount`: payment moved
/// from the investor to the vault, the same amount of equity issued to the
/// investor, and the running total grown by it. Every identity — creator,
/// goal, mint, owners — is untouched.
pub open spec fn invest_step(ctx: Invest, amount: u64) -> Invest {
    Invest {
        campaign: Campaign {
            creator: ctx.campaign.creator,
            goal: ctx.campaign.goal,
            raised: (ctx.campaign.raised + amount) as u64,
            token_mint: ctx.campaign.token_mint,
        },
        campaign_address: ctx.campaign_address,
        investor: ctx.investor,
        investor_token_account: TokenAccount {
            owner: ctx.investor_token_account.owner,
            mint: ctx.investor_token_account.mint,
            balance: (ctx.investor_token_account.balance - amount) as u64,
        },
        vault_token_account: TokenAccount {
            owner: ctx.vault_token_account.owner,
            mint: ctx.vault_token_account.mint,
            balance: (ctx.vault_token_account.balance + amount) as u64,
        },
        investor_equity_account: TokenAccount {
            owner: ctx.investor_equity_account.owner,
            mint: ctx.investor_equity_account.mint,
            balance: (ctx.investor_equity_account.balance + amount) as u64,
        },
        token_mint: Mint {
            address: ctx.token_mint.address,
            authority: ctx.token_mint.authority,
            supply: (ctx.token_mint.supply + amount) as u64,
        },
    }
}

/// Process one investment: transfer `amount` payment tokens from the
/// investor to the vault, mint `amount` equity tokens to the investor — one
/// equity unit per payment unit, a fixed policy — and add `amount` to the
/// running total.
///
/// The three effects are one atomic unit: on any rejection the whole
/// context is exactly as it was. The payment leg runs first; if the
/// issuance leg is then rejected, the core compensates by putting the
/// payment back, as the hosting ledger's all-or-nothing execution would.
pub fn invest(ctx: &mut Invest, amount: u64) -> (r: Result<(), CampaignError>)
    requires
        1 <= amount,
        old(ctx).wf(),
        invest_fits(*old(ctx), amount),
    ensures
        match r {
            Ok(()) => {
                &&& invest_accepted(*old(ctx), amount)
                &&& *final(ctx) == invest_step(*old(ctx), amount)
            },
            Err(e) => {
                &&& !invest_accepted(*old(ctx), amount)
                &&& e == invest_error(*old(ctx), amount)
                &&& *final(ctx) == *old(ctx)
            },
        },
{
    let mut payment_leg = ctx.into_transfer_to_vault_context();
    match transfer(&mut payment_leg, amount) {
        Ok(()) => {},
        Err(e) => {
            return Err(e);
        },
    }
    ctx.investor_token_account = payment_leg.from;
    ctx.vault_token_account = payment_leg.to;

    let mut issuance_leg = ctx.into_mint_to_investor_context();
    match mint_to(&mut issuance_leg, amount) {
        Ok(()) => {},
        Err(e) => {
            // Undo the completed payment leg: off the hosting ledger's
            // all-or-nothing execution, the core compensates itself.
            ctx.investor_token_account.balance = ctx.investor_token_account.balance + amount;
            ctx.vault_token_account.balance = ctx.vault_token_account.balance - amount;
            return Err(e);
        },
    }
    ctx.investor_equity_account = issuance_leg.to;
    ctx.token_mint = issuance_leg.mint;

    ctx.campaign.raised = ctx.campaign.raised + amount;
    Ok(())
}

} // verus!
