use pubsub_bench::overhead::collect_stream;
use pubsub_bench::overhead::payload_of;
use pubsub_bench::overhead::per_message_payload;
use pubsub_bench::overhead::read_zenoh_messages;
use pubsub_bench::overhead::split_frames;
use pubsub_bench::overhead::summarize;
use pubsub_bench::overhead::Layers;
use pubsub_bench::overhead::PayloadSummary;
use pubsub_bench::overhead::PcapData;
use pubsub_bench::overhead::PcapLayers;
use pubsub_bench::overhead::StreamError;
use pubsub_bench::overhead::TransportMessage;
use pubsub_bench::overhead::ZenohMessage;

fn packet(tcp_payload: Option<Vec<&str>>) -> PcapData {
    PcapData {
        index: String::from("packets-2022"),
        pcap_type: String::from("doc"),
        score: None,
        source: Layers {
            layers: PcapLayers {
                frame_len: Some(vec![String::from("70")]),
                ip_len: None,
                tcp_dest: Some(vec![String::from("7447")]),
                tcp_src: None,
                tcp_payload: tcp_payload
                    .map(|texts| texts.into_iter().map(String::from).collect()),
            },
        },
    }
}

#[test]
fn hexadecimal_payloads_are_decoded() {
    assert_eq!(payload_of(&packet(Some(vec!["00ff10Ab"]))), Ok(vec![0x00, 0xff, 0x10, 0xab]));
    assert_eq!(payload_of(&packet(Some(vec!["3031", "ffff"]))), Ok(vec![0x30, 0x31]));
    assert_eq!(payload_of(&packet(Some(vec![""]))), Ok(Vec::new()));
    assert_eq!(payload_of(&packet(None)), Ok(Vec::new()));
}

#[test]
fn payloads_that_are_not_hexadecimal_are_refused() {
    assert_eq!(payload_of(&packet(Some(vec!["abc"]))), Err(StreamError::BadHex));
    assert_eq!(payload_of(&packet(Some(vec!["0g"]))), Err(StreamError::BadHex));
    assert_eq!(payload_of(&packet(Some(vec!["0 "]))), Err(StreamError::BadHex));
    assert_eq!(payload_of(&packet(Some(vec!["\u{e9}0"]))), Err(StreamError::BadHex));
    assert_eq!(payload_of(&packet(Some(vec!["\u{e9}"]))), Err(StreamError::BadHex));
    assert_eq!(payload_of(&packet(Some(vec![]))), Err(StreamError::EmptyPayload));
}

#[test]
fn the_stream_joins_the_payloads_in_order() {
    let packets = vec![
        packet(Some(vec!["0102"])),
        packet(None),
        packet(Some(vec!["03"])),
        packet(Some(vec!["", "04"])),
        packet(Some(vec!["0506"])),
    ];
    assert_eq!(collect_stream(&packets), Ok(vec![1, 2, 3, 5, 6]));
    assert_eq!(collect_stream(&Vec::new()), Ok(Vec::new()));
}

#[test]
fn the_first_bad_packet_decides_the_error() {
    let packets =
        vec![packet(Some(vec!["01"])), packet(Some(vec![])), packet(Some(vec!["zz"]))];
    assert_eq!(collect_stream(&packets), Err(StreamError::EmptyPayload));
    let packets =
        vec![packet(Some(vec!["01"])), packet(Some(vec!["zz"])), packet(Some(vec![]))];
    assert_eq!(collect_stream(&packets), Err(StreamError::BadHex));
}

#[test]
fn frames_follow_their_lengths() {
    assert_eq!(split_frames(&[]), Some(Vec::new()));
    assert_eq!(split_frames(&[9]), Some(Vec::new()));
    assert_eq!(split_frames(&[0, 0]), Some(vec![Vec::new()]));
    assert_eq!(
        split_frames(&[3, 0, 10, 11, 12, 0, 0, 1, 0, 13, 99]),
        Some(vec![vec![10, 11, 12], Vec::new(), vec![13]])
    );
    let mut long: Vec<u8> = vec![0x01, 0x01];
    long.extend(std::iter::repeat(7u8).take(257));
    assert_eq!(split_frames(&long), Some(vec![vec![7u8; 257]]));
}

#[test]
fn a_frame_that_ends_after_the_stream_is_unreadable() {
    assert_eq!(split_frames(&[1, 0]), None);
    assert_eq!(split_frames(&[2, 0, 1]), None);
    assert_eq!(split_frames(&[1, 0, 5, 0, 1]), None);
    assert_eq!(split_frames(&[0xff, 0xff, 0]), None);
}

#[test]
fn protocol_messages_come_out_of_their_frames() {
    let data = vec![
        TransportMessage::Other,
        TransportMessage::Frame(vec![
            ZenohMessage::Data { payload_len: 8 },
            ZenohMessage::Other,
        ]),
        TransportMessage::Frame(Vec::new()),
        TransportMessage::Frame(vec![ZenohMessage::Data { payload_len: 100 }]),
    ];
    let messages = read_zenoh_messages(data);
    assert_eq!(
        messages,
        vec![
            ZenohMessage::Data { payload_len: 8 },
            ZenohMessage::Other,
            ZenohMessage::Data { payload_len: 100 },
        ]
    );
    let summary = summarize(&messages);
    assert_eq!(summary, PayloadSummary { data_count: 2, payload_size: 108 });
    assert_eq!(per_message_payload(&summary), Some(54));
}

#[test]
fn without_data_messages_there_is_no_mean() {
    let summary = summarize(&vec![ZenohMessage::Other]);
    assert_eq!(summary, PayloadSummary { data_count: 0, payload_size: 0 });
    assert_eq!(per_message_payload(&summary), None);
    assert_eq!(read_zenoh_messages(Vec::new()), Vec::new());
}

#[test]
fn the_mean_payload_is_rounded_down() {
    let summary = PayloadSummary { data_count: 3, payload_size: 10 };
    assert_eq!(per_message_payload(&summary), Some(3));
    let messages = vec![ZenohMessage::Data { payload_len: usize::MAX }; 3];
    assert_eq!(summarize(&messages).payload_size, 3 * (usize::MAX as u128));
}
