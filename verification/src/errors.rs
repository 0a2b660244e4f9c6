//! Every way an operation of the core can be rejected.

use vstd::prelude::*;

verus! {

/// The rejection reasons of the core. A failed operation reports exactly one
/// of these and leaves every account and the campaign record untouched.
#[derive(Clone, Copy, PartialEq, Eq, Structural, Debug)]
pub enum CampaignError {
    /// The storage slot for the campaign record already holds a record.
    AllocationConflict,
    /// The caller is not the required signing authority.
    UnauthorizedSigner,
    /// The investor's payment account cannot cover the amount.
    InsufficientBalance,
    /// The acting authority is not the mint's registered authority.
    UnauthorizedMintAuthority,
    /// The destination account belongs to a different mint.
    MintAccountMismatch,
}

} // verus!
