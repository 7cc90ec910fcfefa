//! Running cumulative statistics of a price feed.
//!
//! The account stores only running totals, never per-slot history: the sum of
//! `price * slot_gap`, the sum of `conf * slot_gap`, and the count of slots
//! spent beyond the allowed latency. Any two snapshots of these totals can be
//! subtracted to recover the time-weighted average price and the downtime
//! ratio over the interval between them.

use vstd::prelude::*;

verus! {

/// Fallback latency bound in slots: when a feed's configured maximum latency
/// is zero, this many slots may pass between two successful aggregations
/// before the excess starts counting as downtime.
pub const PC_MAX_SEND_LATENCY: u8 = 25;

/// The latency bound the downtime accounting actually uses: a zero
/// configuration selects the fallback.
pub open spec fn effective_latency(max_latency: u8) -> u64 {
    if max_latency == 0 {
        PC_MAX_SEND_LATENCY as u64
    } else {
        max_latency as u64
    }
}

/// `a - b`, clamped to zero rather than going negative.
pub open spec fn sat_sub(a: int, b: int) -> int {
    if a >= b {
        a - b
    } else {
        0
    }
}

/// Cumulative sums of the successful aggregation results since the account
/// was created. Mutated exclusively by [`PriceCumulative::update`].
///
/// The time-weighted average price between two snapshots `t` and `T` is
/// `(T.price - t.price) / (T.pub_slot - t.pub_slot)`, and the downtime ratio
/// over the same interval is
/// `(T.num_down_slots - t.num_down_slots) / (T.pub_slot - t.pub_slot)`.
#[derive(Clone, Copy, Debug, PartialEq, Eq)]
pub struct PriceCumulative {
    /// Cumulative sum of `price * slot_gap`.
    pub price: i128,
    /// Cumulative sum of `conf * slot_gap`.
    pub conf: u128,
    /// Cumulative number of slots where the feed was down, i.e. the portion
    /// of each gap between successful aggregations that exceeded the
    /// effective latency bound.
    pub num_down_slots: u64,
    /// Padding for alignment.
    pub unused: u64,
}

impl PriceCumulative {
    /// Folds one successful observation into the running totals.
    ///
    /// `slot_gap` is the slot distance to the previous successful
    /// aggregation. The preconditions only state that the widened sums still
    /// fit their 128-bit and 64-bit accumulators; starting from a zeroed
    /// block they hold for any history whose slot gaps sum to at most
    /// `u64::MAX` (see [`lemma_cumulative_no_overflow`]).
    pub fn update(&mut self, price: i64, conf: u64, slot_gap: u64, max_latency: u8)
        requires
            i128::MIN <= old(self).price + price * slot_gap,
            old(self).price + price * slot_gap <= i128::MAX,
            old(self).conf + conf * slot_gap <= u128::MAX,
            old(self).num_down_slots + sat_sub(
                slot_gap as int,
                effective_latency(max_latency) as int,
            ) <= u64::MAX,
        ensures
            final(self).price == old(self).price + price * slot_gap,
            final(self).conf == old(self).conf + conf * slot_gap,
            final(self).num_down_slots == old(self).num_down_slots + sat_sub(
                slot_gap as int,
                effective_latency(max_latency) as int,
            ),
            final(self).unused == old(self).unused,
    {
        proof {
            lemma_weighted_term_bounds(price, conf, slot_gap);
        }
        self.price = self.price + (price as i128) * (slot_gap as i128);
        self.conf = self.conf + (conf as u128) * (slot_gap as u128);
        let latency: u64 = if max_latency == 0 {
            PC_MAX_SEND_LATENCY as u64
        } else {
            max_latency as u64
        };
        self.num_down_slots = self.num_down_slots + slot_gap.saturating_sub(latency);
    }
}

/// A single weighted term is bounded by the extreme products, so it always
/// fits the 128-bit accumulators on its own.
proof fn lemma_weighted_term_bounds(price: i64, conf: u64, slot_gap: u64)
    by (nonlinear_arith)
    ensures
        i64::MIN * u64::MAX <= price * slot_gap <= i64::MAX * u64::MAX,
        0 <= conf * slot_gap <= u64::MAX * u64::MAX,
{
}

/// One successful aggregation result, reduced to what the cumulative sums
/// read from it: the aggregate price and confidence, the slot distance to
/// the previous successful aggregation, and the feed's configured latency
/// bound at that moment.
#[derive(Clone, Copy, Debug, PartialEq, Eq)]
pub struct Observation {
    pub price: i64,
    pub conf: u64,
    pub slot_gap: u64,
    pub max_latency: u8,
}

/// Total slot distance covered by a sequence of observations.
pub open spec fn gap_sum(obs: Seq<Observation>) -> int
    decreases obs.len(),
{
    if obs.len() == 0 {
        0
    } else {
        gap_sum(obs.drop_last()) + obs.last().slot_gap
    }
}

/// The direct sum of `price_i * gap_i` over a sequence of observations.
pub open spec fn price_weighted_sum(obs: Seq<Observation>) -> int
    decreases obs.len(),
{
    if obs.len() == 0 {
        0
    } else {
        price_weighted_sum(obs.drop_last()) + obs.last().price * obs.last().slot_gap
    }
}

/// The direct sum of `conf_i * gap_i` over a sequence of observations.
pub open spec fn conf_weighted_sum(obs: Seq<Observation>) -> int
    decreases obs.len(),
{
    if obs.len() == 0 {
        0
    } else {
        conf_weighted_sum(obs.drop_last()) + obs.last().conf * obs.last().slot_gap
    }
}

/// The direct sum of the portion of each gap that exceeded the effective
/// latency bound.
pub open spec fn down_slot_sum(obs: Seq<Observation>) -> int
    decreases obs.len(),
{
    if obs.len() == 0 {
        0
    } else {
        down_slot_sum(obs.drop_last()) + sat_sub(
            obs.last().slot_gap as int,
            effective_latency(obs.last().max_latency) as int,
        )
    }
}

/// The price sum after folding a sequence of observations, in order, into a
/// starting total. Each step adds exactly what [`PriceCumulative::update`]
/// adds to its `price` field.
pub open spec fn fold_price(start: int, obs: Seq<Observation>) -> int
    decreases obs.len(),
{
    if obs.len() == 0 {
        start
    } else {
        fold_price(start, obs.drop_last()) + obs.last().price * obs.last().slot_gap
    }
}

/// The confidence sum after folding a sequence of observations in order.
pub open spec fn fold_conf(start: int, obs: Seq<Observation>) -> int
    decreases obs.len(),
{
    if obs.len() == 0 {
        start
    } else {
        fold_conf(start, obs.drop_last()) + obs.last().conf * obs.last().slot_gap
    }
}

/// The down-slot count after folding a sequence of observations in order.
pub open spec fn fold_down(start: int, obs: Seq<Observation>) -> int
    decreases obs.len(),
{
    if obs.len() == 0 {
        start
    } else {
        fold_down(start, obs.drop_last()) + sat_sub(
            obs.last().slot_gap as int,
            effective_latency(obs.last().max_latency) as int,
        )
    }
}

/// Additivity: folding any sequence of successful observations into the
/// running totals, in order, yields exactly the starting totals plus the
/// independently computed direct sums.
pub proof fn lemma_fold_additive(
    start_price: int,
    start_conf: int,
    start_down: int,
    obs: Seq<Observation>,
)
    ensures
        fold_price(start_price, obs) == start_price + price_weighted_sum(obs),
        fold_conf(start_conf, obs) == start_conf + conf_weighted_sum(obs),
        fold_down(start_down, obs) == start_down + down_slot_sum(obs),
    decreases obs.len(),
{
    if obs.len() > 0 {
        lemma_fold_additive(start_price, start_conf, start_down, obs.drop_last());
    }
}

/// The direct sums are bounded by the extreme values times the total slot
/// distance, and the slot distance itself never goes negative.
pub proof fn lemma_sums_bounded(obs: Seq<Observation>)
    ensures
        0 <= gap_sum(obs),
        i64::MIN * gap_sum(obs) <= price_weighted_sum(obs) <= i64::MAX * gap_sum(obs),
        0 <= conf_weighted_sum(obs) <= u64::MAX * gap_sum(obs),
        0 <= down_slot_sum(obs) <= gap_sum(obs),
    decreases obs.len(),
{
    if obs.len() > 0 {
        lemma_sums_bounded(obs.drop_last());
        let rest = obs.drop_last();
        let o = obs.last();
        assert(i64::MIN * gap_sum(obs) <= price_weighted_sum(obs) <= i64::MAX * gap_sum(obs))
            by (nonlinear_arith)
            requires
                gap_sum(obs) == gap_sum(rest) + o.slot_gap,
                price_weighted_sum(obs) == price_weighted_sum(rest) + o.price * o.slot_gap,
                0 <= gap_sum(rest),
                i64::MIN * gap_sum(rest) <= price_weighted_sum(rest) <= i64::MAX * gap_sum(rest),
                i64::MIN <= o.price <= i64::MAX,
                0 <= o.slot_gap,
        {}
        assert(0 <= conf_weighted_sum(obs) <= u64::MAX * gap_sum(obs)) by (nonlinear_arith)
            requires
                gap_sum(obs) == gap_sum(rest) + o.slot_gap,
                conf_weighted_sum(obs) == conf_weighted_sum(rest) + o.conf * o.slot_gap,
                0 <= gap_sum(rest),
                0 <= conf_weighted_sum(rest) <= u64::MAX * gap_sum(rest),
                0 <= o.conf <= u64::MAX,
                0 <= o.slot_gap,
        {}
    }
}

/// A prefix of a sequence of observations never covers more slots than the
/// whole sequence.
pub proof fn lemma_gap_sum_take_le(obs: Seq<Observation>, i: int)
    requires
        0 <= i <= obs.len(),
    ensures
        gap_sum(obs.take(i)) <= gap_sum(obs),
    decreases obs.len() - i,
{
    if i == obs.len() {
        assert(obs.take(i) =~= obs);
    } else {
        lemma_gap_sum_take_le(obs, i + 1);
        assert(obs.take(i + 1).drop_last() =~= obs.take(i));
        assert(gap_sum(obs.take(i + 1)) == gap_sum(obs.take(i)) + obs[i].slot_gap);
    }
}

/// Non-overflow: starting from a freshly initialized, all-zero cumulative
/// block, repeated fold-ins never overflow the accumulators as long as the
/// total slot distance fits in a `u64` — which it always does, because the
/// gaps sum to at most the current slot number. Every prefix of the fold
/// stays within the `i128` price sum, the `u128` confidence sum, and the
/// `u64` down-slot counter, so each individual call of
/// [`PriceCumulative::update`] along the way meets its preconditions.
pub proof fn lemma_cumulative_no_overflow(obs: Seq<Observation>)
    requires
        gap_sum(obs) <= u64::MAX,
    ensures
        forall|i: int|
            0 <= i <= obs.len() ==> {
                &&& i128::MIN <= fold_price(0, #[trigger] obs.take(i)) <= i128::MAX
                &&& 0 <= fold_conf(0, obs.take(i)) <= u128::MAX
                &&& 0 <= fold_down(0, obs.take(i)) <= u64::MAX
            },
{
    assert forall|i: int| 0 <= i <= obs.len() implies {
        &&& i128::MIN <= fold_price(0, #[trigger] obs.take(i)) <= i128::MAX
        &&& 0 <= fold_conf(0, obs.take(i)) <= u128::MAX
        &&& 0 <= fold_down(0, obs.take(i)) <= u64::MAX
    } by {
        let prefix = obs.take(i);
        lemma_gap_sum_take_le(obs, i);
        lemma_sums_bounded(prefix);
        lemma_fold_additive(0, 0, 0, prefix);
        assert(i64::MIN * gap_sum(prefix) >= i64::MIN * (u64::MAX as int)) by (nonlinear_arith)
            requires
                0 <= gap_sum(prefix) <= u64::MAX,
        {}
        assert(i64::MAX * gap_sum(prefix) <= i64::MAX * (u64::MAX as int)) by (nonlinear_arith)
            requires
                0 <= gap_sum(prefix) <= u64::MAX,
        {}
        assert(u64::MAX * gap_sum(prefix) <= u64::MAX * (u64::MAX as int)) by (nonlinear_arith)
            requires
                0 <= gap_sum(prefix) <= u64::MAX,
        {}
    }
}

/// Slot gaps that track an increasing slot sequence: `slots` lists the slot
/// of the successful aggregation before the first observation followed by
/// the slot of each observation, and each gap is the distance to its
/// predecessor.
pub open spec fn gaps_follow_slots(obs: Seq<Observation>, slots: Seq<u64>) -> bool {
    &&& slots.len() == obs.len() + 1
    &&& forall|i: int|
        0 <= i < obs.len() ==> #[trigger] slots[i] <= slots[i + 1] && obs[i].slot_gap == slots[i
            + 1] - slots[i]
}

/// When the gaps track a slot sequence, the total slot distance telescopes
/// to the distance between the last and the first slot.
pub proof fn lemma_gap_sum_telescopes(obs: Seq<Observation>, slots: Seq<u64>)
    requires
        gaps_follow_slots(obs, slots),
    ensures
        gap_sum(obs) == slots.last() - slots[0],
    decreases obs.len(),
{
    if obs.len() == 0 {
    } else {
        assert(gaps_follow_slots(obs.drop_last(), slots.drop_last()));
        lemma_gap_sum_telescopes(obs.drop_last(), slots.drop_last());
    }
}

/// TWAP reconstruction: between two captured snapshots, the difference of
/// the cumulative price sums divided by the elapsed slots equals the
/// gap-weighted arithmetic mean of the prices observed in between, up to
/// integer division. The earlier snapshot's sum is `earlier_sum`, the later
/// one is the fold of the observations into it, and the elapsed slots are
/// the distance between the last and the first slot of the interval.
pub proof fn lemma_twap_reconstruction(earlier_sum: int, obs: Seq<Observation>, slots: Seq<u64>)
    requires
        gaps_follow_slots(obs, slots),
        slots[0] < slots.last(),
    ensures
        gap_sum(obs) == slots.last() - slots[0],
        fold_price(earlier_sum, obs) - earlier_sum == price_weighted_sum(obs),
        (fold_price(earlier_sum, obs) - earlier_sum) / (slots.last() - slots[0])
            == price_weighted_sum(obs) / gap_sum(obs),
{
    lemma_gap_sum_telescopes(obs, slots);
    lemma_fold_additive(earlier_sum, 0, 0, obs);
}

} // verus!
