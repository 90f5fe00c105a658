//! Distribution engine for quote-only fee sharing.
//!
//! The engine claims accrued fees denominated in a single quote asset and
//! distributes them to investors in proportion to their still-locked vesting
//! balances, paying the undistributed remainder to a creator account when a
//! distribution day closes.  All arithmetic is overflow-checked, the payout
//! math conserves funds exactly, and the resumable day/page checkpoint keeps
//! paginated invocations from losing or duplicating value.

pub mod codec;
pub mod distribute;
pub mod enhanced_utils;
pub mod error;
pub mod events;
pub mod initialize;
pub mod state;
pub mod utils;
pub mod validation;
