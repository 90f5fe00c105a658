//! Observable events an invocation reports for external auditing.  The
//! engine returns them to its caller; it does not persist them.

use vstd::prelude::*;

verus! {

/// The honorary position was initialized for a vault.
#[derive(Clone, Debug, PartialEq)]
pub struct HonoraryPositionInitialized {
    /// The vault the position belongs to.
    pub vault: Vec<u8>,
    /// The derived authority that owns the position.
    pub position_owner_pda: Vec<u8>,
    /// The quote mint fees are collected in.
    pub quote_mint: Vec<u8>,
    /// The position account.
    pub position: Vec<u8>,
    /// When the position was initialized.
    pub timestamp: i64,
}

/// Quote fees were claimed from the honorary position at day open.
#[derive(Clone, Debug, PartialEq)]
pub struct QuoteFeesClaimed {
    /// The vault the claim belongs to.
    pub vault: Vec<u8>,
    /// The claimed quote amount.
    pub amount_claimed: u64,
    /// The quote mint the amount is denominated in.
    pub quote_mint: Vec<u8>,
    /// When the claim happened.
    pub timestamp: i64,
}

/// One page of investor payouts was computed.
#[derive(Clone, Debug, PartialEq)]
pub struct InvestorPayoutPage {
    /// The vault the page belongs to.
    pub vault: Vec<u8>,
    /// First investor index of the page.
    pub page_start: u64,
    /// One past the last investor index of the page.
    pub page_end: u64,
    /// Total paid to the page's investors.
    pub total_distributed: u64,
    /// Number of investors the page processed.
    pub investor_count: u64,
    /// When the page was processed.
    pub timestamp: i64,
}

/// The day closed and the undistributed remainder went to the creator.
#[derive(Clone, Debug, PartialEq)]
pub struct CreatorPayoutDayClosed {
    /// The vault the day belongs to.
    pub vault: Vec<u8>,
    /// The remainder paid to the creator.
    pub creator_amount: u64,
    /// The day's claimed total.
    pub total_claimed_today: u64,
    /// The day's cumulative investor payout.
    pub total_distributed_to_investors: u64,
    /// When the day closed.
    pub timestamp: i64,
}

} // verus!
