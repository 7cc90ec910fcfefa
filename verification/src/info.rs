//! The small, trivially copyable value types that compose into the price
//! feed account record.

use vstd::prelude::*;
use crate::pubkey::Pubkey;

verus! {

/// Aggregation status: no authoritative price is known yet.
pub const PC_STATUS_UNKNOWN: u32 = 0;

/// Aggregation status: the last aggregation succeeded and produced a
/// trustworthy price.
pub const PC_STATUS_TRADING: u32 = 1;

/// Aggregation status: trading is halted.
pub const PC_STATUS_HALTED: u32 = 2;

/// Aggregation status: the market is in auction.
pub const PC_STATUS_AUCTION: u32 = 3;

/// Aggregation status: the submission is ignored by aggregation.
pub const PC_STATUS_IGNORED: u32 = 4;

/// One aggregation result: a price/confidence pair together with its
/// status, corporate action status, and the slot it was published in.
/// Written by the external aggregation step, read-only here.
#[derive(Clone, Copy, Debug, PartialEq, Eq)]
pub struct PriceInfo {
    pub price_: i64,
    pub conf_: u64,
    pub status_: u32,
    pub corp_act_status_: u32,
    pub pub_slot_: u64,
}

/// One authorized publisher slot: the publisher's identity together with
/// its aggregate and latest submitted results.
#[derive(Clone, Copy, Debug, PartialEq, Eq)]
pub struct PriceComponent {
    pub pub_: Pubkey,
    pub agg_: PriceInfo,
    pub latest_: PriceInfo,
}

/// Exponential-moving-average accumulator. Opaque smoothing state: only
/// `val_` is read when deriving messages.
#[derive(Clone, Copy, Debug, PartialEq, Eq)]
pub struct PriceEma {
    pub val_: i64,
    pub numer_: i64,
    pub denom_: i64,
}

} // verus!
