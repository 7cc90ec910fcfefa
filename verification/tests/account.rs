use pyth_oracle::account::{AccountHeader, PriceAccountPythnet, PC_NUM_COMP_PYTHNET};
use pyth_oracle::flags::PriceAccountFlags;
use pyth_oracle::info::{
    PriceComponent, PriceEma, PriceInfo, PC_STATUS_HALTED, PC_STATUS_TRADING, PC_STATUS_UNKNOWN,
};
use pyth_oracle::pubkey::Pubkey;

fn zero_info() -> PriceInfo {
    PriceInfo { price_: 0, conf_: 0, status_: PC_STATUS_UNKNOWN, corp_act_status_: 0, pub_slot_: 0 }
}

fn test_account() -> PriceAccountPythnet {
    let component = PriceComponent {
        pub_: Pubkey { bytes: [0u8; 32] },
        agg_: zero_info(),
        latest_: zero_info(),
    };
    PriceAccountPythnet {
        header: AccountHeader { magic_number: 0, version: 0, account_type: 0, size: 0 },
        price_type: 0,
        exponent: -8,
        num_: 0,
        num_qt_: 0,
        last_slot_: 1000,
        valid_slot_: 999,
        twap_: PriceEma { val_: 5000, numer_: 0, denom_: 0 },
        twac_: PriceEma { val_: 70, numer_: 0, denom_: 0 },
        timestamp_: 2_000_000,
        min_pub_: 3,
        message_sent_: 0,
        max_latency_: 0,
        flags: PriceAccountFlags { bits: 0 },
        feed_index: 1,
        product_account: Pubkey { bytes: [1u8; 32] },
        next_price_account: Pubkey { bytes: [2u8; 32] },
        prev_slot_: 998,
        prev_price_: 4900,
        prev_conf_: 55,
        prev_timestamp_: 1_999_990,
        agg_: PriceInfo {
            price_: 5100,
            conf_: 60,
            status_: PC_STATUS_TRADING,
            corp_act_status_: 0,
            pub_slot_: 1001,
        },
        comp_: [component; PC_NUM_COMP_PYTHNET],
        price_cumulative: pyth_oracle::cumulative::PriceCumulative {
            price: 12345,
            conf: 678,
            num_down_slots: 9,
            unused: 0,
        },
    }
}

#[test]
fn trading_feed_message_reports_latest_aggregate() {
    let account = test_account();
    let key = Pubkey::new_from_array([7u8; 32]);
    assert_eq!(key.to_bytes(), [7u8; 32]);
    let msg = account.as_price_feed_message(&key);
    assert_eq!(msg.feed_id, [7u8; 32]);
    assert_eq!(msg.price, 5100);
    assert_eq!(msg.conf, 60);
    assert_eq!(msg.publish_time, 2_000_000);
    assert_eq!(msg.prev_publish_time, 1_999_990);
    assert_eq!(msg.exponent, -8);
    assert_eq!(msg.ema_price, 5000);
    assert_eq!(msg.ema_conf, 70);
}

#[test]
fn failed_aggregation_is_masked_by_prev_snapshot() {
    // With a halted latest attempt the message must report the last
    // known-good snapshot, not the fields of the failed attempt.
    let mut account = test_account();
    account.agg_.status_ = PC_STATUS_HALTED;
    let key = Pubkey { bytes: [7u8; 32] };
    let msg = account.as_price_feed_message(&key);
    assert_eq!(msg.price, account.prev_price_);
    assert_eq!(msg.conf, account.prev_conf_);
    assert_eq!(msg.publish_time, account.prev_timestamp_);
    assert_eq!(msg.prev_publish_time, account.prev_timestamp_);
}

#[test]
fn update_price_cumulative_folds_trading_result() {
    let mut account = test_account();
    account.update_price_cumulative();
    // gap = 1001 - 998 = 3; latency 0 selects the fallback of 25 slots.
    assert_eq!(account.price_cumulative.price, 12345 + 5100 * 3);
    assert_eq!(account.price_cumulative.conf, 678 + 60 * 3);
    assert_eq!(account.price_cumulative.num_down_slots, 9);
    // Nothing else moves.
    assert_eq!(account.agg_, test_account().agg_);
    assert_eq!(account.prev_slot_, 998);
}

#[test]
fn update_price_cumulative_is_noop_on_failure() {
    for status in [PC_STATUS_UNKNOWN, PC_STATUS_HALTED] {
        let mut account = test_account();
        account.agg_.status_ = status;
        let before_cumulative = account.price_cumulative;
        account.update_price_cumulative();
        assert_eq!(account.price_cumulative, before_cumulative);
        let mut reference = test_account();
        reference.agg_.status_ = status;
        assert_eq!(account.timestamp_, reference.timestamp_);
        assert_eq!(account.agg_, reference.agg_);
    }
}

#[test]
fn out_of_order_slot_saturates_gap_to_zero() {
    let mut account = test_account();
    account.agg_.pub_slot_ = 500; // earlier than prev_slot_ = 998
    account.update_price_cumulative();
    assert_eq!(account.price_cumulative.price, 12345);
    assert_eq!(account.price_cumulative.conf, 678);
    assert_eq!(account.price_cumulative.num_down_slots, 9);
}

#[test]
fn twap_message_always_reads_cumulative_state() {
    let account = test_account();
    let key = Pubkey { bytes: [9u8; 32] };
    let msg = account.as_twap_message(&key);
    assert_eq!(msg.feed_id, [9u8; 32]);
    assert_eq!(msg.cumulative_price, 12345);
    assert_eq!(msg.cumulative_conf, 678);
    assert_eq!(msg.num_down_slots, 9);
    assert_eq!(msg.publish_time, 2_000_000);
    assert_eq!(msg.prev_publish_time, 1_999_990);
    assert_eq!(msg.publish_slot, 1000);

    // While not trading, the publish time falls back to the snapshot's, but
    // the cumulative fields are still the current ones.
    let mut halted = test_account();
    halted.agg_.status_ = PC_STATUS_HALTED;
    let msg = halted.as_twap_message(&key);
    assert_eq!(msg.publish_time, 1_999_990);
    assert_eq!(msg.cumulative_price, 12345);
    assert_eq!(msg.publish_slot, 1000);
}

#[test]
fn flag_predicates_read_their_bits() {
    assert!(!PriceAccountFlags { bits: 0 }.is_accumulator_v2());
    assert!(!PriceAccountFlags { bits: 0 }.is_message_buffer_cleared());
    assert!(PriceAccountFlags { bits: 0b1 }.is_accumulator_v2());
    assert!(!PriceAccountFlags { bits: 0b1 }.is_message_buffer_cleared());
    assert!(PriceAccountFlags { bits: 0b10 }.is_message_buffer_cleared());
    assert!(PriceAccountFlags { bits: 0b11 }.is_accumulator_v2());
}
