use pubsub_bench::responder::Echo;
use pubsub_bench::responder::EchoResponder;

#[test]
fn a_probe_goes_back_unchanged_on_the_other_topic() {
    let responder = EchoResponder::new(String::from("PING"), String::from("PONG"));
    let payload: Vec<u8> = vec![9, 8, 7, 0, 255];
    assert_eq!(
        responder.on_message(&String::from("PING"), payload.clone()),
        Some(Echo { topic: String::from("PONG"), payload })
    );
    assert_eq!(
        responder.on_message(&String::from("PING"), Vec::new()),
        Some(Echo { topic: String::from("PONG"), payload: Vec::new() })
    );
}

#[test]
fn a_message_on_another_topic_gets_no_answer() {
    let responder = EchoResponder::new(String::from("PING"), String::from("PONG"));
    assert_eq!(responder.on_message(&String::from("PONG"), vec![1]), None);
    assert_eq!(responder.on_message(&String::from("ping"), vec![1]), None);
    assert_eq!(responder.on_message(&String::new(), vec![1]), None);
}
