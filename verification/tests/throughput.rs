use pubsub_bench::codec::generate_payload;
use pubsub_bench::codec::ConfigError;
use pubsub_bench::codec::DecodeError;
use pubsub_bench::codec::PayloadInfo;
use pubsub_bench::report::throughput_line;
use pubsub_bench::throughput::accept;
use pubsub_bench::throughput::accept_reply;
use pubsub_bench::throughput::pattern_payload;
use pubsub_bench::throughput::Delivery;
use pubsub_bench::throughput::Producer;
use pubsub_bench::throughput::RateSample;
use pubsub_bench::throughput::ThroughputCounter;
use pubsub_bench::throughput::ThroughputPrimitives;
use pubsub_bench::throughput::MICROS_PER_SECOND;
use pubsub_bench::throughput::REPORT_INTERVAL_US;

#[test]
fn a_busy_window_then_an_idle_one() {
    let mut counter = ThroughputCounter::new();
    for _ in 0..1_500 {
        counter.record();
    }
    assert_eq!(
        counter.tick(64, 2 * MICROS_PER_SECOND),
        Some(RateSample {
            payload_size: 64,
            window_us: 2_000_000,
            delivered: 1_500,
            messages_per_second: 750,
            mean_latency_us: None,
        })
    );
    assert_eq!(counter, ThroughputCounter { delivered: 0, rtt_sum_us: None });
    assert_eq!(counter.tick(64, MICROS_PER_SECOND), None);
}

#[test]
fn the_rate_is_rounded_down() {
    let mut counter = ThroughputCounter { delivered: 10, rtt_sum_us: None };
    assert_eq!(counter.tick(8, 3_000_000).unwrap().messages_per_second, 3);
    let mut counter = ThroughputCounter { delivered: 1, rtt_sum_us: None };
    assert_eq!(counter.tick(8, 1_000_001).unwrap().messages_per_second, 0);
    let mut counter = ThroughputCounter { delivered: 7, rtt_sum_us: None };
    assert_eq!(counter.tick(8, 1_000_123).unwrap().messages_per_second, 6);
}

#[test]
fn the_rate_of_the_largest_count_in_the_shortest_window_fits() {
    let mut counter = ThroughputCounter { delivered: u64::MAX, rtt_sum_us: Some(u64::MAX) };
    let sample = counter.tick(8, 1).unwrap();
    assert_eq!(sample.messages_per_second, u128::from(u64::MAX) * 1_000_000);
    assert_eq!(sample.mean_latency_us, Some(1));
}

#[test]
fn the_mean_latency_is_the_sum_over_the_count() {
    let mut counter = ThroughputCounter::with_latency();
    assert_eq!(counter, ThroughputCounter { delivered: 0, rtt_sum_us: Some(0) });
    counter.record();
    counter.record();
    counter.record();
    counter.record_rtt(1_000);
    counter.record_rtt(1);
    let sample = counter.tick(32, REPORT_INTERVAL_US).unwrap();
    assert_eq!(sample.messages_per_second, 3);
    assert_eq!(sample.mean_latency_us, Some(333));
    assert_eq!(counter, ThroughputCounter { delivered: 0, rtt_sum_us: Some(0) });
}

#[test]
fn an_idle_window_drops_the_summed_round_trips() {
    let mut counter = ThroughputCounter::with_latency();
    counter.record_rtt(55);
    assert_eq!(counter.tick(32, REPORT_INTERVAL_US), None);
    assert_eq!(counter.rtt_sum_us, Some(0));
}

#[test]
fn a_counter_without_latency_ignores_round_trips() {
    let mut counter = ThroughputCounter::new();
    counter.record_rtt(5);
    assert_eq!(counter, ThroughputCounter { delivered: 0, rtt_sum_us: None });
}

#[test]
fn throughput_lines() {
    let mut counter = ThroughputCounter { delivered: 2_500, rtt_sum_us: None };
    let sample = counter.tick(1_024, 1_000_000).unwrap();
    assert_eq!(throughput_line(&sample), "1024,2500");
    let mut counter = ThroughputCounter { delivered: 4, rtt_sum_us: Some(1_002) };
    let sample = counter.tick(8, 500_000).unwrap();
    assert_eq!(throughput_line(&sample), "8,8,250");
}

#[test]
fn only_payloads_of_the_expected_size_on_the_topic_are_counted() {
    let topic = String::from("THROUGHPUT");
    let other = String::from("PING");
    let mut counter = ThroughputCounter::new();
    let payload = generate_payload(3, 9, 16).unwrap();
    assert_eq!(
        accept(&mut counter, &topic, 16, &topic, &payload),
        Delivery::Counted(PayloadInfo { producer_id: 3, msg_index: 9, payload_size: 16 })
    );
    assert_eq!(counter.delivered, 1);
    assert_eq!(accept(&mut counter, &topic, 16, &other, &payload), Delivery::OtherTopic);
    assert_eq!(
        accept(&mut counter, &topic, 17, &topic, &payload),
        Delivery::Rejected(DecodeError::SizeMismatch)
    );
    assert_eq!(
        accept(&mut counter, &topic, 4, &topic, &payload[..4]),
        Delivery::Rejected(DecodeError::TooShort)
    );
    assert_eq!(counter.delivered, 1);
}

#[test]
fn replies_of_another_size_are_not_counted() {
    let mut counter = ThroughputCounter::with_latency();
    assert!(accept_reply(&mut counter, 100, 100));
    assert!(!accept_reply(&mut counter, 100, 99));
    assert_eq!(counter.delivered, 1);
}

#[test]
fn producer_numbers_its_payloads() {
    assert!(matches!(Producer::new(1, 7), Err(ConfigError::PayloadTooSmall)));
    let mut producer = Producer::new(77, 9).unwrap();
    for msg_index in 0..3u32 {
        assert_eq!(producer.index(), msg_index);
        assert_eq!(producer.next_payload(), generate_payload(77, msg_index, 9).unwrap());
    }
    assert_eq!(producer.index(), 3);
}

#[test]
fn filler_counts_modulo_ten() {
    assert_eq!(pattern_payload(0), Vec::<u8>::new());
    assert_eq!(pattern_payload(13), vec![0, 1, 2, 3, 4, 5, 6, 7, 8, 9, 0, 1, 2]);
}

#[test]
fn every_call_on_the_receiving_side_counts() {
    let mut primitives = ThroughputPrimitives::new(ThroughputCounter::new());
    for _ in 0..5 {
        primitives.on_call();
    }
    assert_eq!(primitives.count.delivered, 5);
    assert_eq!(primitives.tick(16, 1_000_000).unwrap().messages_per_second, 5);
    assert_eq!(primitives.tick(16, 1_000_000), None);
}
