use pubsub_bench::pending::PendingTable;
use pubsub_bench::query::QueryLatency;
use pubsub_bench::query::QueryPrimitives;
use pubsub_bench::query::Reply;
use pubsub_bench::query::ReplyHandler;
use pubsub_bench::query::ReplyVerdict;
use pubsub_bench::query::Request;

#[test]
fn a_reply_is_timed_from_the_sending_of_its_query() {
    let mut pending = PendingTable::new();
    pending.insert(3, 40);
    let mut primitives =
        QueryPrimitives::new(String::from("scenario"), String::from("name"), pending);
    assert_eq!(primitives.scenario_name(), "scenario");
    assert_eq!(primitives.run_name(), "name");
    primitives.send_query(4, 100);
    assert_eq!(primitives.outstanding(), 2);
    assert_eq!(
        primitives.send_reply_data(4, 256, 175),
        ReplyVerdict::Answered(QueryLatency { qid: 4, payload_len: 256, elapsed_us: 75 })
    );
    assert_eq!(
        primitives.send_reply_data(3, 0, 40),
        ReplyVerdict::Answered(QueryLatency { qid: 3, payload_len: 0, elapsed_us: 0 })
    );
    assert_eq!(primitives.outstanding(), 0);
}

#[test]
fn a_reply_to_no_query_is_unknown() {
    let mut primitives =
        QueryPrimitives::new(String::new(), String::new(), PendingTable::new());
    assert_eq!(primitives.send_reply_data(0, 8, 10), ReplyVerdict::Unknown);
    primitives.send_query(0, 5);
    assert_eq!(primitives.send_reply_data(1, 8, 10), ReplyVerdict::Unknown);
    assert_eq!(primitives.outstanding(), 1);
    assert!(matches!(primitives.send_reply_data(0, 8, 10), ReplyVerdict::Answered(_)));
    assert_eq!(primitives.send_reply_data(0, 8, 10), ReplyVerdict::Unknown);
}

#[test]
fn a_reply_before_its_query_is_clock_skew() {
    let mut primitives =
        QueryPrimitives::new(String::new(), String::new(), PendingTable::new());
    primitives.send_query(9, 500);
    assert_eq!(primitives.send_reply_data(9, 8, 499), ReplyVerdict::ClockSkew);
    assert_eq!(primitives.outstanding(), 0);
}

#[test]
fn every_query_gets_zeros_of_the_configured_size() {
    let handler = ReplyHandler::new(5);
    assert_eq!(
        handler.handle_message(Request::Query { qid: 17 }),
        Some(Reply { qid: 17, payload: vec![0, 0, 0, 0, 0] })
    );
    assert_eq!(handler.handle_message(Request::Other), None);
    assert_eq!(
        ReplyHandler::new(0).handle_message(Request::Query { qid: 0 }),
        Some(Reply { qid: 0, payload: Vec::new() })
    );
}
