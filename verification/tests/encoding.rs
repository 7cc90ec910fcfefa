use pyth_oracle::messages::{
    PriceFeedMessage, PublisherStakeCap, PublisherStakeCapsMessage, PythOracleSerialize,
    TwapMessage,
};

fn sample_feed_message() -> PriceFeedMessage {
    PriceFeedMessage {
        feed_id: [0u8; 32],
        price: 1,
        conf: 2,
        exponent: -5,
        publish_time: 100,
        prev_publish_time: 90,
        ema_price: 3,
        ema_conf: 4,
    }
}

#[test]
fn feed_update_encodes_exact_bytes() {
    // Discriminator, 32 zero bytes of feed id, then each field big-endian
    // at its declared width.
    let bytes = sample_feed_message().to_bytes();

    let mut expected: Vec<u8> = vec![0u8];
    expected.extend_from_slice(&[0u8; 32]);
    expected.extend_from_slice(&1i64.to_be_bytes());
    expected.extend_from_slice(&2u64.to_be_bytes());
    expected.extend_from_slice(&(-5i32).to_be_bytes());
    expected.extend_from_slice(&100i64.to_be_bytes());
    expected.extend_from_slice(&90i64.to_be_bytes());
    expected.extend_from_slice(&3i64.to_be_bytes());
    expected.extend_from_slice(&4u64.to_be_bytes());

    assert_eq!(bytes.len(), 1 + 32 + 8 + 8 + 4 + 8 + 8 + 8 + 8);
    assert_eq!(bytes, expected);
}

#[test]
fn feed_update_extreme_values_round_trip_big_endian() {
    let msg = PriceFeedMessage {
        feed_id: [0xabu8; 32],
        price: i64::MIN,
        conf: u64::MAX,
        exponent: i32::MIN,
        publish_time: -1,
        prev_publish_time: i64::MAX,
        ema_price: -2,
        ema_conf: 0,
    };
    let bytes = msg.to_bytes();
    assert_eq!(&bytes[1..33], &[0xabu8; 32]);
    assert_eq!(&bytes[33..41], &i64::MIN.to_be_bytes());
    assert_eq!(&bytes[41..49], &u64::MAX.to_be_bytes());
    assert_eq!(&bytes[49..53], &i32::MIN.to_be_bytes());
    assert_eq!(&bytes[53..61], &(-1i64).to_be_bytes());
    assert_eq!(&bytes[61..69], &i64::MAX.to_be_bytes());
    assert_eq!(&bytes[69..77], &(-2i64).to_be_bytes());
    assert_eq!(&bytes[77..85], &0u64.to_be_bytes());
}

fn sample_twap_message() -> TwapMessage {
    TwapMessage {
        feed_id: [5u8; 32],
        cumulative_price: -123_456_789_000,
        cumulative_conf: 987_654_321,
        num_down_slots: 42,
        exponent: -8,
        publish_time: 1_700_000_000,
        prev_publish_time: 1_699_999_990,
        publish_slot: 250_000_000,
    }
}

#[test]
fn twap_update_encodes_exact_bytes() {
    let msg = sample_twap_message();
    let bytes = msg.to_bytes();

    let mut expected: Vec<u8> = vec![1u8];
    expected.extend_from_slice(&[5u8; 32]);
    expected.extend_from_slice(&msg.cumulative_price.to_be_bytes());
    expected.extend_from_slice(&msg.cumulative_conf.to_be_bytes());
    expected.extend_from_slice(&msg.num_down_slots.to_be_bytes());
    expected.extend_from_slice(&msg.exponent.to_be_bytes());
    expected.extend_from_slice(&msg.publish_time.to_be_bytes());
    expected.extend_from_slice(&msg.prev_publish_time.to_be_bytes());
    expected.extend_from_slice(&msg.publish_slot.to_be_bytes());

    assert_eq!(bytes.len(), 1 + 32 + 16 + 16 + 8 + 4 + 8 + 8 + 8);
    assert_eq!(bytes.len(), 101);
    assert_eq!(bytes, expected);
}

#[test]
fn stake_caps_snapshot_encodes_count_and_entries() {
    let msg = PublisherStakeCapsMessage {
        publish_time: 77,
        caps: vec![
            PublisherStakeCap { publisher: [1u8; 32], cap: 10 },
            PublisherStakeCap { publisher: [2u8; 32], cap: u64::MAX },
        ],
    };
    let bytes = msg.to_bytes();

    let mut expected: Vec<u8> = vec![2u8];
    expected.extend_from_slice(&77i64.to_be_bytes());
    expected.extend_from_slice(&2u16.to_be_bytes());
    expected.extend_from_slice(&[1u8; 32]);
    expected.extend_from_slice(&10u64.to_be_bytes());
    expected.extend_from_slice(&[2u8; 32]);
    expected.extend_from_slice(&u64::MAX.to_be_bytes());

    assert_eq!(bytes.len(), 11 + 2 * 40);
    assert_eq!(bytes, expected);
}

#[test]
fn stake_caps_snapshot_with_no_entries() {
    let msg = PublisherStakeCapsMessage { publish_time: -1, caps: vec![] };
    let bytes = msg.to_bytes();
    let mut expected: Vec<u8> = vec![2u8];
    expected.extend_from_slice(&(-1i64).to_be_bytes());
    expected.extend_from_slice(&0u16.to_be_bytes());
    assert_eq!(bytes, expected);
}

#[test]
fn oversized_stake_caps_list_is_rejected() {
    // The 16-bit count prefix cannot represent more than 65535 entries, so
    // the checked encoder refuses the snapshot instead of emitting a
    // malformed stream.
    let cap = PublisherStakeCap { publisher: [0u8; 32], cap: 1 };
    let oversized = PublisherStakeCapsMessage {
        publish_time: 0,
        caps: vec![cap; u16::MAX as usize + 1],
    };
    assert!(oversized.try_to_bytes().is_none());

    let largest = PublisherStakeCapsMessage { publish_time: 0, caps: vec![cap; u16::MAX as usize] };
    let bytes = largest.try_to_bytes().expect("a list of 65535 entries still encodes");
    assert_eq!(bytes.len(), 11 + 40 * u16::MAX as usize);
    assert_eq!(bytes[9], 0xff);
    assert_eq!(bytes[10], 0xff);
}

#[test]
fn discriminators_are_stable() {
    // Whatever the payloads hold, the leading byte is 0, 1 and 2.
    assert_eq!(sample_feed_message().to_bytes()[0], 0);
    assert_eq!(sample_twap_message().to_bytes()[0], 1);
    let caps = PublisherStakeCapsMessage { publish_time: 0, caps: vec![] };
    assert_eq!(caps.to_bytes()[0], 2);

    let other_feed = PriceFeedMessage {
        feed_id: [0xffu8; 32],
        price: -1,
        conf: 0,
        exponent: 0,
        publish_time: 0,
        prev_publish_time: 0,
        ema_price: 0,
        ema_conf: 0,
    };
    assert_eq!(other_feed.to_bytes()[0], 0);
}
