//! Bets.

use vstd::prelude::*;

verus! {

/// Where a bet stands.
#[derive(Debug, Clone, Copy, PartialEq, Eq, Structural)]
pub enum BetStatus {
    Pending,
    Validated,
    Rejected,
}

} // verus!
