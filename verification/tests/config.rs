use pubsub_bench::codec::ConfigError;
use pubsub_bench::config::create_client;
use pubsub_bench::config::ClientConfig;
use pubsub_bench::config::Mode;
use pubsub_bench::config::DEFAULT_CAP_SIZE;
use pubsub_bench::config::DEFAULT_GROUP_ID;
use pubsub_bench::config::DEFAULT_PING_TOPIC;
use pubsub_bench::config::DEFAULT_PONG_TOPIC;
use pubsub_bench::config::DEFAULT_THROUGHPUT_TOPIC;
use pubsub_bench::config::PACKET_HEADER_SIZE;

#[test]
fn defaults() {
    assert_eq!(DEFAULT_THROUGHPUT_TOPIC, "THROUGHPUT");
    assert_eq!(DEFAULT_PING_TOPIC, "PING");
    assert_eq!(DEFAULT_PONG_TOPIC, "PONG");
    assert_eq!(DEFAULT_GROUP_ID, "DUMMY_GROUP");
    assert_eq!(DEFAULT_CAP_SIZE, 10);
    assert_eq!(PACKET_HEADER_SIZE, 14);
}

#[test]
fn the_packet_size_leaves_room_for_the_header() {
    assert_eq!(
        create_client(String::from("ping"), String::from("127.0.0.1"), 1883, 2_147_483_648),
        Ok(ClientConfig {
            name: String::from("ping"),
            host: String::from("127.0.0.1"),
            port: 1883,
            max_packet_size: 2_147_483_662,
            capacity: 10,
        })
    );
    assert_eq!(
        create_client(String::new(), String::new(), 0, 0).unwrap().max_packet_size,
        14
    );
    assert_eq!(
        create_client(String::new(), String::new(), 0, usize::MAX - 14).unwrap().max_packet_size,
        usize::MAX
    );
}

#[test]
fn a_payload_size_without_room_for_the_header_is_refused() {
    assert_eq!(
        create_client(String::new(), String::new(), 0, usize::MAX - 13),
        Err(ConfigError::PayloadTooLarge)
    );
    assert_eq!(
        create_client(String::new(), String::new(), 0, usize::MAX),
        Err(ConfigError::PayloadTooLarge)
    );
}

#[test]
fn modes_by_name() {
    assert_eq!(Mode::from_name("peer"), Some(Mode::Peer));
    assert_eq!(Mode::from_name("client"), Some(Mode::Client));
    assert_eq!(Mode::from_name("Peer"), None);
    assert_eq!(Mode::from_name("router"), None);
    assert_eq!(Mode::from_name(""), None);
    assert_eq!(Mode::Peer.name(), "peer");
    assert_eq!(Mode::Client.name(), "client");
    assert_eq!(Mode::from_name(Mode::Client.name()), Some(Mode::Client));
}

#[test]
fn only_a_peer_listens() {
    assert!(Mode::Peer.listens());
    assert!(!Mode::Client.listens());
}
