//! Account identities and authorizing principals.

use vstd::prelude::*;

verus! {

/// The address of an account on the hosting ledger, reduced to the one thing
/// the accounting core ever does with it: compare it for equality.
#[derive(Clone, Copy, PartialEq, Eq, Structural, Debug)]
pub struct Pubkey {
    pub id: u64,
}

/// An authorizing principal for a ledger operation.
///
/// The host distinguishes two capabilities: a principal whose signature it
/// has verified, and an account address that a program lets act as an
/// authority without holding any key (here, the campaign record signing the
/// mint of its own equity token). The two are never interchangeable, so they
/// are kept apart as tagged variants rather than unified behind one
/// signature check.
#[derive(Clone, Copy, PartialEq, Eq, Structural, Debug)]
pub enum Authority {
    /// A principal whose signature the host has verified for this operation.
    ExternalSigner(Pubkey),
    /// An account address acting as an authority without a key; the host
    /// attests that the address belongs to the executing program's state.
    ProgramDerivedAuthority(Pubkey),
}

impl Authority {
    /// The address this principal acts as, whichever way it authorizes.
    pub open spec fn spec_key(self) -> Pubkey {
        match self {
            Authority::ExternalSigner(k) => k,
            Authority::ProgramDerivedAuthority(k) => k,
        }
    }

    /// Executable counterpart of [`Self::spec_key`].
    pub fn key(&self) -> (k: Pubkey)
        ensures
            k == self.spec_key(),
    {
        match self {
            Authority::ExternalSigner(k) => *k,
            Authority::ProgramDerivedAuthority(k) => *k,
        }
    }
}

} // verus!
