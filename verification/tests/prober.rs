use pubsub_bench::codec::encode_at;
use pubsub_bench::codec::generate_payload;
use pubsub_bench::codec::ConfigError;
use pubsub_bench::codec::DecodeError;
use pubsub_bench::prober::LatencySample;
use pubsub_bench::prober::ParallelProber;
use pubsub_bench::prober::SequentialProber;
use pubsub_bench::prober::Verdict;
use pubsub_bench::prober::RECV_TIMEOUT_US;
use pubsub_bench::report::latency_line;
use pubsub_bench::responder::EchoResponder;

fn pong() -> String {
    String::from("PONG")
}

#[test]
fn ten_probes_with_a_responsive_echo_give_ten_samples() {
    let ping = String::from("PING");
    let responder = EchoResponder::new(ping.clone(), pong());
    let mut prober = SequentialProber::new(4242, 16, pong()).unwrap();
    let mut lines: Vec<String> = Vec::new();
    let mut now_us: u64 = 1_000;
    for seq_index in 0..10u32 {
        let probe = prober.next_probe(now_us).unwrap();
        assert_eq!(probe.len(), 16);
        let echo = responder.on_message(&ping, probe).unwrap();
        let rtt_us = 300 + 2 * u64::from(seq_index);
        match prober.on_message(&echo.topic, &echo.payload, now_us + rtt_us) {
            Verdict::Sample(sample) => {
                assert_eq!(sample, LatencySample { seq_index, rtt_us });
                lines.push(latency_line("0.1", &sample));
            }
            other => panic!("no sample: {:?}", other),
        }
        assert_eq!(prober.awaited(), None);
        now_us += 100_000;
    }
    assert_eq!(prober.probes_sent(), 10);
    assert_eq!(
        lines,
        vec![
            "0.1,150", "0.1,151", "0.1,152", "0.1,153", "0.1,154", "0.1,155", "0.1,156",
            "0.1,157", "0.1,158", "0.1,159"
        ]
    );
}

#[test]
fn without_a_responder_every_probe_is_lost() {
    let mut prober = SequentialProber::new(1, 16, pong()).unwrap();
    let mut now_us: u64 = 0;
    for seq_index in 0..1_000u32 {
        assert!(prober.next_probe(now_us).is_some());
        assert_eq!(prober.awaited(), Some(seq_index));
        now_us += RECV_TIMEOUT_US;
        assert_eq!(prober.on_timeout(), Some(seq_index));
        assert_eq!(prober.awaited(), None);
    }
    assert_eq!(prober.probes_sent(), 1_000);
    assert_eq!(prober.on_timeout(), None);
}

#[test]
fn the_wait_for_one_probe_is_a_second() {
    assert_eq!(RECV_TIMEOUT_US, 1_000_000);
}

#[test]
fn sequential_prober_refuses_small_payloads() {
    assert!(matches!(SequentialProber::new(1, 15, pong()), Err(ConfigError::PayloadTooSmall)));
    assert!(SequentialProber::new(1, 16, pong()).is_ok());
}

#[test]
fn sequential_prober_numbers_its_probes_upwards() {
    let mut prober = SequentialProber::new(9, 16, pong()).unwrap();
    for seq_index in 0..5u32 {
        let probe = prober.next_probe(77).unwrap();
        assert_eq!(probe, encode_at(9, seq_index, 16, 77).unwrap());
    }
}

#[test]
fn sequential_prober_drops_what_is_not_the_awaited_answer() {
    let mut prober = SequentialProber::new(9, 16, pong()).unwrap();
    let probe = prober.next_probe(100).unwrap();

    let other_topic = String::from("ELSEWHERE");
    assert_eq!(prober.on_message(&other_topic, &probe, 200), Verdict::OtherTopic);

    let foreign = encode_at(10, 0, 16, 100).unwrap();
    assert_eq!(prober.on_message(&pong(), &foreign, 200), Verdict::Foreign);

    let stale = encode_at(9, 7, 16, 100).unwrap();
    assert_eq!(prober.on_message(&pong(), &stale, 200), Verdict::Unmatched);

    assert_eq!(
        prober.on_message(&pong(), &probe[..15], 200),
        Verdict::Malformed(DecodeError::TooShort)
    );
    let long = encode_at(9, 0, 17, 100).unwrap();
    assert_eq!(
        prober.on_message(&pong(), &long, 200),
        Verdict::Malformed(DecodeError::SizeMismatch)
    );
    assert_eq!(
        prober.on_message(&pong(), &probe, 99),
        Verdict::Malformed(DecodeError::ClockSkew)
    );

    assert_eq!(prober.awaited(), Some(0));
    assert_eq!(
        prober.on_message(&pong(), &probe, 200),
        Verdict::Sample(LatencySample { seq_index: 0, rtt_us: 100 })
    );
    assert_eq!(prober.on_message(&pong(), &probe, 300), Verdict::Unmatched);
}

#[test]
fn a_late_answer_after_the_timeout_is_unmatched() {
    let mut prober = SequentialProber::new(9, 16, pong()).unwrap();
    let first = prober.next_probe(0).unwrap();
    assert_eq!(prober.on_timeout(), Some(0));
    let second = prober.next_probe(10).unwrap();
    assert_eq!(prober.on_message(&pong(), &first, 20), Verdict::Unmatched);
    assert_eq!(
        prober.on_message(&pong(), &second, 20),
        Verdict::Sample(LatencySample { seq_index: 1, rtt_us: 10 })
    );
}

#[test]
fn half_of_the_round_trip_is_rounded_down() {
    assert_eq!(LatencySample { seq_index: 0, rtt_us: 0 }.half_rtt_us(), 0);
    assert_eq!(LatencySample { seq_index: 0, rtt_us: 1 }.half_rtt_us(), 0);
    assert_eq!(LatencySample { seq_index: 0, rtt_us: 7 }.half_rtt_us(), 3);
    assert_eq!(LatencySample { seq_index: 0, rtt_us: u64::MAX }.half_rtt_us(), u64::MAX / 2);
}

#[test]
fn parallel_prober_refuses_small_payloads() {
    assert!(matches!(ParallelProber::new(1, 7, pong()), Err(ConfigError::PayloadTooSmall)));
    assert!(ParallelProber::new(1, 8, pong()).is_ok());
}

#[test]
fn parallel_prober_matches_answers_in_any_order() {
    let mut prober = ParallelProber::new(5, 8, pong()).unwrap();
    let mut probes: Vec<Vec<u8>> = Vec::new();
    for seq_index in 0..4u32 {
        let probe = prober.next_probe(10 * u64::from(seq_index)).unwrap();
        assert_eq!(probe, generate_payload(5, seq_index, 8).unwrap());
        probes.push(probe);
    }
    assert_eq!(prober.outstanding(), 4);
    assert_eq!(prober.sent_at(2), Some(20));
    assert_eq!(
        prober.on_message(&pong(), &probes[2], 100),
        Verdict::Sample(LatencySample { seq_index: 2, rtt_us: 80 })
    );
    assert_eq!(prober.sent_at(2), None);
    assert_eq!(
        prober.on_message(&pong(), &probes[0], 100),
        Verdict::Sample(LatencySample { seq_index: 0, rtt_us: 100 })
    );
    assert_eq!(prober.on_message(&pong(), &probes[0], 100), Verdict::Unmatched);
    assert_eq!(
        prober.on_message(&pong(), &probes[3], 130),
        Verdict::Sample(LatencySample { seq_index: 3, rtt_us: 100 })
    );
    assert_eq!(
        prober.on_message(&pong(), &probes[1], 10),
        Verdict::Sample(LatencySample { seq_index: 1, rtt_us: 0 })
    );
    assert_eq!(prober.outstanding(), 0);
    assert_eq!(prober.probes_sent(), 4);
}

#[test]
fn parallel_prober_drops_what_answers_nothing() {
    let mut prober = ParallelProber::new(5, 12, pong()).unwrap();
    let probe = prober.next_probe(50).unwrap();
    let elsewhere = String::from("PING");
    assert_eq!(prober.on_message(&elsewhere, &probe, 60), Verdict::OtherTopic);
    let foreign = generate_payload(6, 0, 12).unwrap();
    assert_eq!(prober.on_message(&pong(), &foreign, 60), Verdict::Foreign);
    let unknown = generate_payload(5, 1, 12).unwrap();
    assert_eq!(prober.on_message(&pong(), &unknown, 60), Verdict::Unmatched);
    assert_eq!(
        prober.on_message(&pong(), &probe[..7], 60),
        Verdict::Malformed(DecodeError::TooShort)
    );
    assert_eq!(
        prober.on_message(&pong(), &probe[..11], 60),
        Verdict::Malformed(DecodeError::SizeMismatch)
    );
    assert_eq!(prober.outstanding(), 1);
    assert_eq!(
        prober.on_message(&pong(), &probe, 49),
        Verdict::Malformed(DecodeError::ClockSkew)
    );
    assert_eq!(prober.outstanding(), 0);
}

#[test]
fn expiry_gives_up_the_overdue_probes_only() {
    let mut prober = ParallelProber::new(5, 8, pong()).unwrap();
    let mut probes: Vec<Vec<u8>> = Vec::new();
    for seq_index in 0..6u64 {
        probes.push(prober.next_probe(100 * seq_index).unwrap());
    }
    assert!(matches!(prober.on_message(&pong(), &probes[1], 150), Verdict::Sample(_)));
    assert_eq!(prober.expire(1_299, 1_000), vec![0, 2]);
    assert_eq!(prober.outstanding(), 3);
    assert_eq!(prober.expire(1_299, 1_000), Vec::<u32>::new());
    assert_eq!(prober.on_message(&pong(), &probes[0], 1_300), Verdict::Unmatched);
    assert_eq!(prober.expire(1_300, 1_000), vec![3]);
    assert!(matches!(prober.on_message(&pong(), &probes[5], 1_400), Verdict::Sample(_)));
    probes.push(prober.next_probe(1_400).unwrap());
    assert_eq!(prober.expire(u64::MAX, 0), vec![4, 6]);
    assert_eq!(prober.outstanding(), 0);
    assert_eq!(prober.expire(u64::MAX, 0), Vec::<u32>::new());
}

#[test]
fn expiry_keeps_probes_that_were_entered_as_sent_later_than_now() {
    let mut prober = ParallelProber::new(5, 8, pong()).unwrap();
    prober.next_probe(500).unwrap();
    assert_eq!(prober.expire(400, 0), Vec::<u32>::new());
    assert_eq!(prober.expire(500, 1), Vec::<u32>::new());
    assert_eq!(prober.expire(500, 0), vec![0]);
}
