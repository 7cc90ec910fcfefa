//! Outbound message payloads and their wire encoding.
//!
//! Each payload is encoded as one leading discriminator byte followed by its
//! fields in declaration order, every integer big-endian at its natural
//! width, with no padding and no length prefixes except the explicit entry
//! count of the stake-caps snapshot. Discriminator values are frozen: they
//! may never be reassigned.

use vstd::prelude::*;
use crate::wire::{
    push_bytes32, push_i32_be, push_i64_be, push_i128_be, push_u16_be, push_u64_be, push_u128_be,
    spec_i32_be, spec_i64_be, spec_i128_be, spec_u16_be, spec_u64_be, spec_u128_be,
};

verus! {

/// Discriminator of the price feed update message.
pub const PRICE_FEED_MESSAGE_DISCRIMINATOR: u8 = 0;

/// Discriminator of the time-weighted average price update message.
pub const TWAP_MESSAGE_DISCRIMINATOR: u8 = 1;

/// Discriminator of the publisher stake caps snapshot message.
pub const PUBLISHER_STAKE_CAPS_MESSAGE_DISCRIMINATOR: u8 = 2;

/// A price feed update: the last known-good price of a feed together with
/// its confidence, exponent, timestamps, and smoothed values.
#[derive(Clone, Copy, Debug, PartialEq, Eq)]
pub struct PriceFeedMessage {
    pub feed_id: [u8; 32],
    pub price: i64,
    pub conf: u64,
    pub exponent: i32,
    pub publish_time: i64,
    pub prev_publish_time: i64,
    pub ema_price: i64,
    pub ema_conf: u64,
}

/// A time-weighted average price update: the cumulative sums of a feed, from
/// which any two snapshots reconstruct the average price and the downtime
/// ratio over the interval between them.
#[derive(Clone, Copy, Debug, PartialEq, Eq)]
pub struct TwapMessage {
    pub feed_id: [u8; 32],
    pub cumulative_price: i128,
    pub cumulative_conf: u128,
    pub num_down_slots: u64,
    pub exponent: i32,
    pub publish_time: i64,
    pub prev_publish_time: i64,
    pub publish_slot: u64,
}

/// One publisher's stake cap.
#[derive(Clone, Copy, Debug, PartialEq, Eq)]
pub struct PublisherStakeCap {
    pub publisher: [u8; 32],
    pub cap: u64,
}

/// A snapshot of every publisher's stake cap at one point in time.
#[derive(Debug, PartialEq, Eq)]
pub struct PublisherStakeCapsMessage {
    pub publish_time: i64,
    pub caps: Vec<PublisherStakeCap>,
}

/// The 40 bytes of one stake cap entry: the publisher identity followed by
/// the big-endian cap.
pub open spec fn spec_cap_bytes(c: PublisherStakeCap) -> Seq<u8> {
    c.publisher@ + spec_u64_be(c.cap)
}

/// The concatenated entries of a stake caps list, in order.
pub open spec fn spec_caps_bytes(caps: Seq<PublisherStakeCap>) -> Seq<u8>
    decreases caps.len(),
{
    if caps.len() == 0 {
        Seq::empty()
    } else {
        spec_caps_bytes(caps.drop_last()) + spec_cap_bytes(caps.last())
    }
}

/// Serialization into the discriminator-tagged big-endian wire format.
pub trait PythOracleSerialize: Sized {
    /// Whether the payload can be encoded faithfully. Encoding is total for
    /// the fixed-size messages; a variable-size payload may be rejected.
    spec fn encodable(self) -> bool;

    /// The exact bytes of the encoded message.
    spec fn spec_bytes(self) -> Seq<u8>;

    /// Encodes the payload.
    fn to_bytes(self) -> (r: Vec<u8>)
        requires
            self.encodable(),
        ensures
            r@ == self.spec_bytes(),
    ;
}

impl PythOracleSerialize for PriceFeedMessage {
    open spec fn encodable(self) -> bool {
        true
    }

    /// 85 bytes: discriminator, feed identity, then `price` through
    /// `ema_conf`, each big-endian at its declared width.
    open spec fn spec_bytes(self) -> Seq<u8> {
        seq![PRICE_FEED_MESSAGE_DISCRIMINATOR] + self.feed_id@ + spec_i64_be(self.price)
            + spec_u64_be(self.conf) + spec_i32_be(self.exponent) + spec_i64_be(self.publish_time)
            + spec_i64_be(self.prev_publish_time) + spec_i64_be(self.ema_price) + spec_u64_be(
            self.ema_conf,
        )
    }

    fn to_bytes(self) -> (r: Vec<u8>) {
        let mut out: Vec<u8> = Vec::new();
        out.push(PRICE_FEED_MESSAGE_DISCRIMINATOR);
        push_bytes32(&mut out, &self.feed_id);
        push_i64_be(&mut out, self.price);
        push_u64_be(&mut out, self.conf);
        push_i32_be(&mut out, self.exponent);
        push_i64_be(&mut out, self.publish_time);
        push_i64_be(&mut out, self.prev_publish_time);
        push_i64_be(&mut out, self.ema_price);
        push_u64_be(&mut out, self.ema_conf);
        assert(out@ =~= self.spec_bytes());
        out
    }
}

impl PythOracleSerialize for TwapMessage {
    open spec fn encodable(self) -> bool {
        true
    }

    /// 101 bytes: discriminator, feed identity, then `cumulative_price`
    /// through `publish_slot`, each big-endian at its declared width.
    open spec fn spec_bytes(self) -> Seq<u8> {
        seq![TWAP_MESSAGE_DISCRIMINATOR] + self.feed_id@ + spec_i128_be(self.cumulative_price)
            + spec_u128_be(self.cumulative_conf) + spec_u64_be(self.num_down_slots) + spec_i32_be(
            self.exponent,
        ) + spec_i64_be(self.publish_time) + spec_i64_be(self.prev_publish_time) + spec_u64_be(
            self.publish_slot,
        )
    }

    fn to_bytes(self) -> (r: Vec<u8>) {
        let mut out: Vec<u8> = Vec::new();
        out.push(TWAP_MESSAGE_DISCRIMINATOR);
        push_bytes32(&mut out, &self.feed_id);
        push_i128_be(&mut out, self.cumulative_price);
        push_u128_be(&mut out, self.cumulative_conf);
        push_u64_be(&mut out, self.num_down_slots);
        push_i32_be(&mut out, self.exponent);
        push_i64_be(&mut out, self.publish_time);
        push_i64_be(&mut out, self.prev_publish_time);
        push_u64_be(&mut out, self.publish_slot);
        assert(out@ =~= self.spec_bytes());
        out
    }
}

impl PythOracleSerialize for PublisherStakeCapsMessage {
    /// The entry count is written as a 16-bit prefix, so a list longer than
    /// `u16::MAX` cannot be encoded faithfully: the prefix would undercount
    /// while every entry were still appended, a malformed stream. Such a
    /// payload is rejected instead of truncated.
    open spec fn encodable(self) -> bool {
        self.caps@.len() <= u16::MAX
    }

    /// Discriminator, big-endian publish time, 16-bit entry count, then the
    /// entries in order: 11 + 40 * count bytes.
    open spec fn spec_bytes(self) -> Seq<u8> {
        seq![PUBLISHER_STAKE_CAPS_MESSAGE_DISCRIMINATOR] + spec_i64_be(self.publish_time)
            + spec_u16_be(self.caps@.len() as u16) + spec_caps_bytes(self.caps@)
    }

    fn to_bytes(self) -> (r: Vec<u8>) {
        let mut out: Vec<u8> = Vec::new();
        out.push(PUBLISHER_STAKE_CAPS_MESSAGE_DISCRIMINATOR);
        push_i64_be(&mut out, self.publish_time);
        push_u16_be(&mut out, self.caps.len() as u16);
        let ghost prefix: Seq<u8> = out@;
        let n = self.caps.len();
        for idx in 0..n
            invariant
                n == self.caps@.len(),
                out@ == prefix + spec_caps_bytes(self.caps@.take(idx as int)),
        {
            assert(self.caps@.take(idx + 1).drop_last() =~= self.caps@.take(idx as int));
            assert(self.caps@.take(idx + 1).last() == self.caps@[idx as int]);
            push_bytes32(&mut out, &self.caps[idx].publisher);
            push_u64_be(&mut out, self.caps[idx].cap);
            assert(out@ =~= prefix + spec_caps_bytes(self.caps@.take(idx + 1)));
        }
        assert(self.caps@.take(n as int) =~= self.caps@);
        assert(out@ =~= self.spec_bytes());
        out
    }
}

impl PublisherStakeCapsMessage {
    /// Total encoder for the variable-size snapshot: rejects a cap list
    /// whose length does not fit the 16-bit count prefix instead of
    /// emitting a malformed stream, and encodes any other list.
    pub fn try_to_bytes(self) -> (r: Option<Vec<u8>>)
        ensures
            self.caps@.len() <= u16::MAX ==> (r matches Some(bytes) && bytes@
                == self.spec_bytes()),
            self.caps@.len() > u16::MAX ==> r is None,
    {
        if self.caps.len() <= u16::MAX as usize {
            Some(self.to_bytes())
        } else {
            None
        }
    }
}

/// Discriminator stability: whatever the payloads hold, the first encoded
/// byte of a price feed update is 0, of a TWAP update 1, and of a stake
/// caps snapshot 2.
pub proof fn lemma_discriminator_stability(
    f: PriceFeedMessage,
    t: TwapMessage,
    s: PublisherStakeCapsMessage,
)
    ensures
        f.spec_bytes()[0] == PRICE_FEED_MESSAGE_DISCRIMINATOR,
        t.spec_bytes()[0] == TWAP_MESSAGE_DISCRIMINATOR,
        s.spec_bytes()[0] == PUBLISHER_STAKE_CAPS_MESSAGE_DISCRIMINATOR,
{
}

/// The concatenated stake cap entries take exactly 40 bytes each.
pub proof fn lemma_caps_bytes_len(caps: Seq<PublisherStakeCap>)
    ensures
        spec_caps_bytes(caps).len() == 40 * caps.len(),
    decreases caps.len(),
{
    if caps.len() > 0 {
        lemma_caps_bytes_len(caps.drop_last());
    }
}

/// An encoded price feed update is exactly 85 bytes.
pub proof fn lemma_price_feed_message_len(f: PriceFeedMessage)
    ensures
        f.spec_bytes().len() == 85,
{
}

/// An encoded TWAP update is exactly 101 bytes.
pub proof fn lemma_twap_message_len(t: TwapMessage)
    ensures
        t.spec_bytes().len() == 101,
{
    assert(spec_i128_be(t.cumulative_price).len() == 16);
    assert(spec_u128_be(t.cumulative_conf).len() == 16);
}

/// An encoded stake caps snapshot is exactly 11 bytes plus 40 per entry.
pub proof fn lemma_stake_caps_message_len(s: PublisherStakeCapsMessage)
    ensures
        s.spec_bytes().len() == 11 + 40 * s.caps@.len(),
{
    lemma_caps_bytes_len(s.caps@);
}

} // verus!
