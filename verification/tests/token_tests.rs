use fundraising_campaign::authority::{Authority, Pubkey};
use fundraising_campaign::errors::CampaignError;
use fundraising_campaign::token::{mint_to, transfer, Mint, MintTo, TokenAccount, Transfer};

fn key(id: u64) -> Pubkey {
    Pubkey { id }
}

fn payment_leg(balance: u64, authority: Authority) -> Transfer {
    Transfer {
        from: TokenAccount { owner: key(3), mint: key(9), balance },
        to: TokenAccount { owner: key(4), mint: key(9), balance: 50 },
        authority,
    }
}

fn issuance_leg(authority: Authority) -> MintTo {
    MintTo {
        mint: Mint { address: key(2), authority: key(4), supply: 10 },
        to: TokenAccount { owner: key(3), mint: key(2), balance: 5 },
        authority,
    }
}

#[test]
fn transfer_moves_the_amount() {
    let mut leg = payment_leg(700, Authority::ExternalSigner(key(3)));
    assert_eq!(transfer(&mut leg, 300), Ok(()));
    assert_eq!(leg.from.balance, 400);
    assert_eq!(leg.to.balance, 350);
    assert_eq!(leg.from.owner, key(3));
    assert_eq!(leg.to.owner, key(4));
}

#[test]
fn transfer_rejects_an_overdraw_untouched() {
    let mut leg = payment_leg(700, Authority::ExternalSigner(key(3)));
    let before = leg;
    assert_eq!(transfer(&mut leg, 701), Err(CampaignError::InsufficientBalance));
    assert_eq!(leg, before);
}

#[test]
fn transfer_rejects_a_foreign_signer() {
    let mut leg = payment_leg(700, Authority::ExternalSigner(key(8)));
    let before = leg;
    assert_eq!(transfer(&mut leg, 300), Err(CampaignError::UnauthorizedSigner));
    assert_eq!(leg, before);
}

#[test]
fn transfer_rejects_an_address_acting_without_a_key() {
    // Even the owner's own address cannot sign a transfer without a key.
    let mut leg = payment_leg(700, Authority::ProgramDerivedAuthority(key(3)));
    let before = leg;
    assert_eq!(transfer(&mut leg, 300), Err(CampaignError::UnauthorizedSigner));
    assert_eq!(leg, before);
}

#[test]
fn transfer_reports_the_balance_before_the_signer() {
    // Both checks fail; the balance is examined first.
    let mut leg = payment_leg(100, Authority::ExternalSigner(key(8)));
    assert_eq!(transfer(&mut leg, 300), Err(CampaignError::InsufficientBalance));
}

#[test]
fn mint_issues_into_the_account_and_grows_the_supply() {
    let mut leg = issuance_leg(Authority::ProgramDerivedAuthority(key(4)));
    assert_eq!(mint_to(&mut leg, 300), Ok(()));
    assert_eq!(leg.to.balance, 305);
    assert_eq!(leg.mint.supply, 310);
}

#[test]
fn mint_accepts_its_authority_signing_externally_too() {
    let mut leg = issuance_leg(Authority::ExternalSigner(key(4)));
    assert_eq!(mint_to(&mut leg, 1), Ok(()));
    assert_eq!(leg.to.balance, 6);
}

#[test]
fn mint_rejects_a_foreign_authority_untouched() {
    let mut leg = issuance_leg(Authority::ProgramDerivedAuthority(key(8)));
    let before = leg;
    assert_eq!(mint_to(&mut leg, 300), Err(CampaignError::UnauthorizedMintAuthority));
    assert_eq!(leg, before);
}

#[test]
fn mint_rejects_a_destination_of_another_mint() {
    let mut leg = issuance_leg(Authority::ProgramDerivedAuthority(key(4)));
    leg.to.mint = key(8);
    let before = leg;
    assert_eq!(mint_to(&mut leg, 300), Err(CampaignError::MintAccountMismatch));
    assert_eq!(leg, before);
}

#[test]
fn mint_reports_the_authority_before_the_mismatch() {
    // Both checks fail; the authority is examined first.
    let mut leg = issuance_leg(Authority::ProgramDerivedAuthority(key(8)));
    leg.to.mint = key(7);
    assert_eq!(mint_to(&mut leg, 300), Err(CampaignError::UnauthorizedMintAuthority));
}
