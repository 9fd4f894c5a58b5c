//! An escrow-based order book for lending and renting non-fungible assets.
//!
//! An owner who has placed an asset in custody publishes a lend offer
//! (price and duration); a counterparty rents it, receiving a time-bounded
//! usage grant; the owner may edit the terms or reclaim the asset once no
//! active rental remains.  The order-state machine over the two keyed
//! tables (lend offers and rent orders) lives here and is verified; the
//! transport runtime, message encoding and the custody and payment
//! collaborators sit outside the library and receive plain instruction
//! values to carry out.

pub mod error;
pub mod model;
pub mod msg;
pub mod state;
pub mod handle;
pub mod query;

use vstd::prelude::*;

verus! {

/// Shortest lend duration (in seconds) an offer may carry.
pub const MIN_DURATION: u64 = 60;

/// Longest lend duration (in seconds) an offer may carry: one year.
pub const MAX_DURATION: u64 = 31_536_000;

} // verus!
