//! The price feed account record and its derivation methods.
//!
//! The record is the aggregate root: a header, configuration, the latest and
//! previous aggregation results, the publisher components, the EMA pair, and
//! the cumulative statistics block. External aggregation writes `agg_` and
//! the `prev_*` snapshot; this module folds successful results into the
//! cumulative sums and derives the outbound message payloads.

use vstd::prelude::*;
use crate::cumulative::{effective_latency, sat_sub, PriceCumulative};
use crate::flags::PriceAccountFlags;
use crate::info::{PriceComponent, PriceEma, PriceInfo, PC_STATUS_TRADING};
use crate::messages::{PriceFeedMessage, TwapMessage};
use crate::pubkey::Pubkey;

verus! {

/// Account type tag of a price account.
pub const PC_ACCTYPE_PRICE: u32 = 3;

/// Number of publisher component slots the account reserves. Not all of
/// them are in use: `num_` tracks how many are, and iteration must always
/// be bounded by that count, never by this capacity.
pub const PC_NUM_COMP_PYTHNET: usize = 128;

/// The feed index is limited to 28 bits so that it can be packed together
/// with a trading status in a single `u32` elsewhere.
pub const MAX_FEED_INDEX: u32 = 0x0fffffff;

/// The fixed header every oracle account starts with.
#[derive(Clone, Copy, Debug, PartialEq, Eq)]
pub struct AccountHeader {
    pub magic_number: u32,
    pub version: u32,
    pub account_type: u32,
    pub size: u32,
}

/// The extended price account record. The layout is append-only: fields are
/// only ever added at the tail, never reordered or resized.
#[derive(Clone, Copy)]
pub struct PriceAccountPythnet {
    pub header: AccountHeader,
    /// Type of the price account.
    pub price_type: u32,
    /// Exponent for the published prices.
    pub exponent: i32,
    /// Current number of authorized publishers.
    pub num_: u32,
    /// Number of valid quotes for the last aggregation.
    pub num_qt_: u32,
    /// Last slot with a successful aggregation (trading status).
    pub last_slot_: u64,
    /// Second to last slot where aggregation was attempted.
    pub valid_slot_: u64,
    /// EMA for the price.
    pub twap_: PriceEma,
    /// EMA for the confidence.
    pub twac_: PriceEma,
    /// Last time aggregation was attempted.
    pub timestamp_: i64,
    /// Minimum valid publisher quotes for a successful aggregation.
    pub min_pub_: u8,
    pub message_sent_: u8,
    /// Configurable max latency in slots between send and receive.
    pub max_latency_: u8,
    /// Feed-level flags.
    pub flags: PriceAccountFlags,
    /// Globally unique price feed index used for publishing; at most
    /// [`MAX_FEED_INDEX`].
    pub feed_index: u32,
    /// Corresponding product account.
    pub product_account: Pubkey,
    /// Next price account in the list.
    pub next_price_account: Pubkey,
    /// Second to last slot where aggregation was successful.
    pub prev_slot_: u64,
    /// Aggregate price at `prev_slot_`.
    pub prev_price_: i64,
    /// Confidence interval at `prev_slot_`.
    pub prev_conf_: u64,
    /// Timestamp of `prev_slot_`.
    pub prev_timestamp_: i64,
    /// Last attempted aggregate results.
    pub agg_: PriceInfo,
    /// Publishers' price components; only the first `num_` slots are in use.
    pub comp_: [PriceComponent; PC_NUM_COMP_PYTHNET],
    /// Cumulative sums of aggregate price and confidence, used to compute
    /// arithmetic moving averages.
    pub price_cumulative: PriceCumulative,
}

impl PriceAccountPythnet {
    /// Whether the latest aggregation attempt succeeded.
    pub open spec fn spec_is_trading(self) -> bool {
        self.agg_.status_ == PC_STATUS_TRADING
    }

    /// The price, confidence and timestamp a consumer may rely on: the
    /// latest aggregation result while the feed is trading, and the last
    /// known-good snapshot otherwise, so that a failed aggregation attempt
    /// is never reported as a price.
    pub open spec fn spec_effective_observation(self) -> (i64, u64, i64) {
        if self.spec_is_trading() {
            (self.agg_.price_, self.agg_.conf_, self.timestamp_)
        } else {
            (self.prev_price_, self.prev_conf_, self.prev_timestamp_)
        }
    }

    /// The slot distance from the previous successful aggregation to the
    /// latest one, clamped to zero if the slots arrive out of order.
    pub open spec fn spec_slot_gap(self) -> int {
        sat_sub(self.agg_.pub_slot_ as int, self.prev_slot_ as int)
    }

    /// Whether folding the latest aggregation result into the cumulative
    /// sums stays within the accumulators. It always does in a record whose
    /// sums were only ever produced by fold-ins, because the gaps sum to at
    /// most the current slot (see
    /// [`crate::cumulative::lemma_cumulative_no_overflow`]).
    pub open spec fn spec_cumulative_fits(self) -> bool {
        &&& i128::MIN <= self.price_cumulative.price + self.agg_.price_ * self.spec_slot_gap()
        &&& self.price_cumulative.price + self.agg_.price_ * self.spec_slot_gap() <= i128::MAX
        &&& self.price_cumulative.conf + self.agg_.conf_ * self.spec_slot_gap() <= u128::MAX
        &&& self.price_cumulative.num_down_slots + sat_sub(
            self.spec_slot_gap(),
            effective_latency(self.max_latency_) as int,
        ) <= u64::MAX
    }

    /// The shared trading/else selection of the two message derivations.
    pub fn effective_observation(&self) -> (r: (i64, u64, i64))
        ensures
            r == self.spec_effective_observation(),
    {
        if self.agg_.status_ == PC_STATUS_TRADING {
            (self.agg_.price_, self.agg_.conf_, self.timestamp_)
        } else {
            (self.prev_price_, self.prev_conf_, self.prev_timestamp_)
        }
    }

    /// Derives the price feed update payload. The reported price,
    /// confidence and publish time come from the latest aggregation only
    /// while it is trading; otherwise the last known-good snapshot is
    /// reported, and `prev_publish_time` always tells how stale it is.
    pub fn as_price_feed_message(&self, key: &Pubkey) -> (msg: PriceFeedMessage)
        ensures
            msg.feed_id == key.bytes,
            (msg.price, msg.conf, msg.publish_time) == self.spec_effective_observation(),
            msg.exponent == self.exponent,
            msg.prev_publish_time == self.prev_timestamp_,
            msg.ema_price == self.twap_.val_,
            msg.ema_conf == self.twac_.val_ as u64,
    {
        let (price, conf, publish_time) = self.effective_observation();
        PriceFeedMessage {
            feed_id: key.to_bytes(),
            price,
            conf,
            exponent: self.exponent,
            publish_time,
            prev_publish_time: self.prev_timestamp_,
            ema_price: self.twap_.val_,
            ema_conf: #[verifier::truncate] (self.twac_.val_ as u64),
        }
    }

    /// Folds the latest aggregation result into the cumulative sums if and
    /// only if it succeeded; a failed attempt leaves the record unchanged.
    /// This is the sole call site of [`PriceCumulative::update`].
    pub fn update_price_cumulative(&mut self)
        requires
            old(self).spec_is_trading() ==> old(self).spec_cumulative_fits(),
        ensures
            *final(self) == (PriceAccountPythnet {
                price_cumulative: final(self).price_cumulative,
                ..*old(self)
            }),
            old(self).spec_is_trading() ==> {
                &&& final(self).price_cumulative.price == old(self).price_cumulative.price + old(
                    self,
                ).agg_.price_ * old(self).spec_slot_gap()
                &&& final(self).price_cumulative.conf == old(self).price_cumulative.conf + old(
                    self,
                ).agg_.conf_ * old(self).spec_slot_gap()
                &&& final(self).price_cumulative.num_down_slots == old(
                    self,
                ).price_cumulative.num_down_slots + sat_sub(
                    old(self).spec_slot_gap(),
                    effective_latency(old(self).max_latency_) as int,
                )
                &&& final(self).price_cumulative.unused == old(self).price_cumulative.unused
            },
            !old(self).spec_is_trading() ==> *final(self) == *old(self),
    {
        if self.agg_.status_ == PC_STATUS_TRADING {
            let price = self.agg_.price_;
            let conf = self.agg_.conf_;
            // pub_slot should always be at least prev_slot, but the
            // subtraction is clamped to protect against underflow in case
            // slots ever arrive out of order.
            let slot_gap = self.agg_.pub_slot_.saturating_sub(self.prev_slot_);
            let max_latency = self.max_latency_;
            self.price_cumulative.update(price, conf, slot_gap, max_latency);
        }
    }

    /// Derives the TWAP update payload. The publish time follows the same
    /// trading/else selection as the price feed message, but the cumulative
    /// fields are always read from the current sums — they are monotone
    /// regardless of the latest attempt's success — and the publish slot is
    /// always the slot of the last successful aggregation.
    pub fn as_twap_message(&self, key: &Pubkey) -> (msg: TwapMessage)
        ensures
            msg.feed_id == key.bytes,
            msg.cumulative_price == self.price_cumulative.price,
            msg.cumulative_conf == self.price_cumulative.conf,
            msg.num_down_slots == self.price_cumulative.num_down_slots,
            msg.exponent == self.exponent,
            msg.publish_time == self.spec_effective_observation().2,
            msg.prev_publish_time == self.prev_timestamp_,
            msg.publish_slot == self.last_slot_,
    {
        let (_, _, publish_time) = self.effective_observation();
        TwapMessage {
            feed_id: key.to_bytes(),
            cumulative_price: self.price_cumulative.price,
            cumulative_conf: self.price_cumulative.conf,
            num_down_slots: self.price_cumulative.num_down_slots,
            exponent: self.exponent,
            publish_time,
            prev_publish_time: self.prev_timestamp_,
            publish_slot: self.last_slot_,
        }
    }
}

} // verus!
