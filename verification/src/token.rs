//! The token ledger as the core sees it: accounts with balances, mints with
//! a single issuing authority, and the two movement primitives the core
//! composes — `transfer` and `mint_to`.
//!
//! On the hosting ledger these primitives are operations of the token
//! program; here they are modelled on plain data, with their acceptance and
//! rejection rules stated exactly, so that the investment sequence built on
//! top of them can be verified.

use vstd::prelude::*;

use crate::authority::{Authority, Pubkey};
use crate::errors::CampaignError;

verus! {

/// One token account: who may sign for it, which mint its units belong to,
/// and its balance in base units of that token.
#[derive(Clone, Copy, PartialEq, Eq, Structural, Debug)]
pub struct TokenAccount {
    /// The principal whose signature authorizes outgoing transfers.
    pub owner: Pubkey,
    /// The mint whose units this account holds.
    pub mint: Pubkey,
    /// Balance in base units.
    pub balance: u64,
}

/// One token mint: its own address, the single authority permitted to issue
/// new units, and the total issued so far.
#[derive(Clone, Copy, PartialEq, Eq, Structural, Debug)]
pub struct Mint {
    /// The mint's own address; token accounts of this mint name it.
    pub address: Pubkey,
    /// The one address permitted to issue new units.
    pub authority: Pubkey,
    /// Total units issued, in base units.
    pub supply: u64,
}

/// The parties of one payment movement: which account pays, which receives,
/// and who authorizes it.
#[derive(Clone, Copy, PartialEq, Eq, Structural, Debug)]
pub struct Transfer {
    pub from: TokenAccount,
    pub to: TokenAccount,
    pub authority: Authority,
}

/// The parties of one issuance: which mint issues, which account receives,
/// and who authorizes it.
#[derive(Clone, Copy, PartialEq, Eq, Structural, Debug)]
pub struct MintTo {
    pub mint: Mint,
    pub to: TokenAccount,
    pub authority: Authority,
}

/// Whether the ledger accepts a transfer: the paying account covers the
/// amount, and the authority is the verified signature of that account's
/// owner. An address acting without a key can never sign a transfer.
pub open spec fn transfer_accepted(accounts: Transfer, amount: u64) -> bool {
    &&& accounts.from.balance >= amount
    &&& accounts.authority == Authority::ExternalSigner(accounts.from.owner)
}

/// The reason a rejected transfer reports: the balance is examined first,
/// the signer second.
pub open spec fn transfer_error(accounts: Transfer, amount: u64) -> CampaignError {
    if accounts.from.balance < amount {
        CampaignError::InsufficientBalance
    } else {
        CampaignError::UnauthorizedSigner
    }
}

/// Move `amount` base units from `accounts.from` to `accounts.to`, under the
/// signature of `accounts.authority`. Rejection leaves both accounts exactly
/// as they were.
pub fn transfer(accounts: &mut Transfer, amount: u64) -> (r: Result<(), CampaignError>)
    requires
        old(accounts).to.balance + amount <= u64::MAX,
    ensures
        match r {
            Ok(()) => {
                &&& transfer_accepted(*old(accounts), amount)
                &&& final(accounts).from.owner == old(accounts).from.owner
                &&& final(accounts).from.mint == old(accounts).from.mint
                &&& final(accounts).from.balance == old(accounts).from.balance - amount
                &&& final(accounts).to.owner == old(accounts).to.owner
                &&& final(accounts).to.mint == old(accounts).to.mint
                &&& final(accounts).to.balance == old(accounts).to.balance + amount
                &&& final(accounts).authority == old(accounts).authority
            },
            Err(e) => {
                &&& !transfer_accepted(*old(accounts), amount)
                &&& e == transfer_error(*old(accounts), amount)
                &&& *final(accounts) == *old(accounts)
            },
        },
{
    if accounts.from.balance < amount {
        return Err(CampaignError::InsufficientBalance);
    }
    let signed_by_owner = match accounts.authority {
        Authority::ExternalSigner(k) => k == accounts.from.owner,
        Authority::ProgramDerivedAuthority(_) => false,
    };
    if !signed_by_owner {
        return Err(CampaignError::UnauthorizedSigner);
    }
    accounts.from.balance = accounts.from.balance - amount;
    accounts.to.balance = accounts.to.balance + amount;
    Ok(())
}

/// Whether the ledger accepts an issuance: the acting authority is the
/// mint's registered authority, and the destination account belongs to that
/// mint.
pub open spec fn mint_accepted(accounts: MintTo) -> bool {
    &&& accounts.authority.spec_key() == accounts.mint.authority
    &&& accounts.to.mint == accounts.mint.address
}

/// The reason a rejected issuance reports: the authority is examined first,
/// the destination's mint second.
pub open spec fn mint_error(accounts: MintTo) -> CampaignError {
    if accounts.authority.spec_key() != accounts.mint.authority {
        CampaignError::UnauthorizedMintAuthority
    } else {
        CampaignError::MintAccountMismatch
    }
}

/// Issue `amount` new base units of `accounts.mint` into `accounts.to`,
/// under `accounts.authority`. Rejection leaves the mint and the account
/// exactly as they were.
pub fn mint_to(accounts: &mut MintTo, amount: u64) -> (r: Result<(), CampaignError>)
    requires
        old(accounts).to.balance + amount <= u64::MAX,
        old(accounts).mint.supply + amount <= u64::MAX,
    ensures
        match r {
            Ok(()) => {
                &&& mint_accepted(*old(accounts))
                &&& final(accounts).mint.address == old(accounts).mint.address
                &&& final(accounts).mint.authority == old(accounts).mint.authority
                &&& final(accounts).mint.supply == old(accounts).mint.supply + amount
                &&& final(accounts).to.owner == old(accounts).to.owner
                &&& final(accounts).to.mint == old(accounts).to.mint
                &&& final(accounts).to.balance == old(accounts).to.balance + amount
                &&& final(accounts).authority == old(accounts).authority
            },
            Err(e) => {
                &&& !mint_accepted(*old(accounts))
                &&& e == mint_error(*old(accounts))
                &&& *final(accounts) == *old(accounts)
            },
        },
{
    if accounts.authority.key() != accounts.mint.authority {
        return Err(CampaignError::UnauthorizedMintAuthority);
    }
    if accounts.to.mint != accounts.mint.address {
        return Err(CampaignError::MintAccountMismatch);
    }
    accounts.to.balance = accounts.to.balance + amount;
    accounts.mint.supply = accounts.mint.supply + amount;
    Ok(())
}

} // verus!
