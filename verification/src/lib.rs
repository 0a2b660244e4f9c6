//! Accounting core of a single-campaign fundraising program.
//!
//! A campaign is seeded once with a creator, a funding goal and the identity
//! of the equity-token mint it may issue from. Each investment then moves
//! payment tokens from the investor into the campaign's vault, mints the same
//! number of equity tokens to the investor, and adds the amount to the
//! campaign's running total — all three effects together or none of them.
//!
//! The hosting ledger (account allocation, signature checking, the token
//! accounts themselves) is modelled as plain data so that the movement rules
//! can be stated and proved exactly.

pub mod authority;
pub mod campaign;
pub mod errors;
pub mod laws;
pub mod token;
