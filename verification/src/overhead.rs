//! Wire overhead: from a packet capture to the bytes that the protocol put
//! on the wire, and to the share of them that was payload.

use hex::FromHexError;
use vstd::prelude::*;
use vstd::slice::slice_subrange;
use vstd::slice::slice_to_vec;

verus! {

/// One captured packet, as the capture tool exports it.
#[derive(Debug, Clone)]
pub struct PcapData {
    pub index: String,
    pub pcap_type: String,
    pub score: Option<String>,
    pub source: Layers,
}

/// The protocol layers of one captured packet.
#[derive(Debug, Clone)]
pub struct Layers {
    pub layers: PcapLayers,
}

/// The fields of the layers that the analysis reads, each as the list of
/// texts that the capture tool gives for it.
#[derive(Debug, Clone)]
pub struct PcapLayers {
    pub frame_len: Option<Vec<String>>,
    pub ip_len: Option<Vec<String>>,
    pub tcp_dest: Option<Vec<String>>,
    pub tcp_src: Option<Vec<String>>,
    /// The payload of the TCP segment, in hexadecimal digits.
    pub tcp_payload: Option<Vec<String>>,
}

/// Why a capture does not give a byte stream.
#[derive(Debug, Clone, Copy, PartialEq, Eq, Structural)]
pub enum StreamError {
    /// A packet has a payload field without a text in it.
    EmptyPayload,
    /// A payload text is not an even number of hexadecimal digits.
    BadHex,
}

#[verifier::external_type_specification]
#[verifier::external_body]
pub struct ExFromHexError(FromHexError);

/// The value of the hexadecimal digit `c`, which is an ASCII code.
pub open spec fn hex_value(c: u8) -> Option<u8> {
    if 0x30 <= c <= 0x39 {
        Some((c - 0x30) as u8)
    } else if 0x41 <= c <= 0x46 {
        Some((c - 0x41 + 10) as u8)
    } else if 0x61 <= c <= 0x66 {
        Some((c - 0x61 + 10) as u8)
    } else {
        None
    }
}

/// Whether `text` is an even number of hexadecimal digits.
pub open spec fn is_hex(text: Seq<u8>) -> bool {
    &&& text.len() % 2 == 0
    &&& forall|i: int| 0 <= i < text.len() ==> hex_value(#[trigger] text[i]) is Some
}

/// The bytes that the digits of `text` spell, two digits to a byte, the
/// high digit first.
pub open spec fn hex_bytes(text: Seq<u8>) -> Seq<u8> {
    Seq::new(
        text.len() / 2,
        |i: int| (16 * hex_value(text[2 * i])->Some_0 + hex_value(text[2 * i + 1])->Some_0) as u8,
    )
}

/// `hex::decode` on a byte slice. It succeeds on an even number of
/// hexadecimal digits, of either case, and on nothing else; the result then
/// holds one byte for each pair of digits, the first digit of a pair being
/// the high half of the byte.
#[verifier::external_body]
fn hex_decode(text: &[u8]) -> (res: Result<Vec<u8>, FromHexError>)
    ensures
        res is Ok <==> is_hex(text@),
        res is Ok ==> res->Ok_0@ == hex_bytes(text@),
{
    hex::decode(text)
}

/// The bytes that one packet adds to the stream: none where it has no
/// payload field, else what the first text of the field spells.
pub open spec fn packet_bytes(packet: PcapData) -> Result<Seq<u8>, StreamError> {
    match packet.source.layers.tcp_payload {
        None => Ok(Seq::empty()),
        Some(texts) => if texts@.len() == 0 {
            Err(StreamError::EmptyPayload)
        } else if !is_hex(vstd::utf8::encode_utf8(texts@[0]@)) {
            Err(StreamError::BadHex)
        } else {
            Ok(hex_bytes(vstd::utf8::encode_utf8(texts@[0]@)))
        },
    }
}

/// The bytes of all packets, in the order of the capture. The first packet
/// that gives no bytes decides the error.
pub open spec fn stream_of(packets: Seq<PcapData>) -> Result<Seq<u8>, StreamError>
    decreases packets.len(),
{
    if packets.len() == 0 {
        Ok(Seq::empty())
    } else {
        match stream_of(packets.drop_last()) {
            Err(error) => Err(error),
            Ok(stream) => match packet_bytes(packets.last()) {
                Err(error) => Err(error),
                Ok(bytes) => Ok(stream + bytes),
            },
        }
    }
}

/// Decodes the payload of one packet.
pub fn payload_of(packet: &PcapData) -> (res: Result<Vec<u8>, StreamError>)
    ensures
        match res {
            Ok(bytes) => packet_bytes(*packet) == Ok::<Seq<u8>, StreamError>(bytes@),
            Err(error) => packet_bytes(*packet) == Err::<Seq<u8>, StreamError>(error),
        },
{
    match &packet.source.layers.tcp_payload {
        None => Ok(Vec::new()),
        Some(texts) => {
            if texts.len() == 0 {
                return Err(StreamError::EmptyPayload);
            }
            match hex_decode(texts[0].as_str().as_bytes()) {
                Ok(bytes) => Ok(bytes),
                Err(_) => Err(StreamError::BadHex),
            }
        },
    }
}

/// Joins the payloads of all packets into one byte stream.
pub fn collect_stream(packets: &Vec<PcapData>) -> (res: Result<Vec<u8>, StreamError>)
    ensures
        match res {
            Ok(bytes) => stream_of(packets@) == Ok::<Seq<u8>, StreamError>(bytes@),
            Err(error) => stream_of(packets@) == Err::<Seq<u8>, StreamError>(error),
        },
{
    let mut stream: Vec<u8> = Vec::new();
    let mut i: usize = 0;
    while i < packets.len()
        invariant
            i <= packets.len(),
            stream_of(packets@.subrange(0, i as int)) == Ok::<Seq<u8>, StreamError>(stream@),
        decreases packets.len() - i,
    {
        let ghost upto = packets@.subrange(0, i + 1);
        assert(upto.drop_last() =~= packets@.subrange(0, i as int));
        assert(upto.last() == packets@[i as int]);
        match payload_of(&packets[i]) {
            Err(error) => {
                proof {
                    lemma_stream_error_stays(packets@, i + 1);
                }
                return Err(error);
            },
            Ok(mut bytes) => {
                stream.append(&mut bytes);
            },
        }
        i = i + 1;
    }
    assert(packets@.subrange(0, i as int) =~= packets@);
    Ok(stream)
}

/// Once the packets up to a place give an error, all the packets give it.
proof fn lemma_stream_error_stays(packets: Seq<PcapData>, upto: int)
    requires
        0 <= upto <= packets.len(),
        stream_of(packets.subrange(0, upto)) is Err,
    ensures
        stream_of(packets) == stream_of(packets.subrange(0, upto)),
    decreases packets.len() - upto,
{
    if upto == packets.len() {
        assert(packets.subrange(0, upto) =~= packets);
    } else {
        let next = packets.subrange(0, upto + 1);
        assert(next.drop_last() =~= packets.subrange(0, upto));
        lemma_stream_error_stays(packets, upto + 1);
    }
}

/// The frames of a stream in which each frame follows its own length, a
/// 16-bit number with the low byte first. A last byte that begins no length
/// is left over; a frame that ends after the stream makes the stream
/// unreadable.
pub open spec fn frames_of(stream: Seq<u8>) -> Option<Seq<Seq<u8>>>
    decreases stream.len(),
{
    if stream.len() < 2 {
        Some(Seq::empty())
    } else {
        let length = stream[0] + 0x100 * stream[1];
        if stream.len() < 2 + length {
            None
        } else {
            match frames_of(stream.subrange(2 + length, stream.len() as int)) {
                None => None,
                Some(rest) => Some(seq![stream.subrange(2, 2 + length)] + rest),
            }
        }
    }
}

/// The contents of some frames.
pub open spec fn frame_views(frames: Seq<Vec<u8>>) -> Seq<Seq<u8>> {
    Seq::new(frames.len(), |i: int| frames[i]@)
}

/// Cuts a stream into its frames.
pub fn split_frames(stream: &[u8]) -> (res: Option<Vec<Vec<u8>>>)
    ensures
        match res {
            Some(frames) => frames_of(stream@) == Some(frame_views(frames@)),
            None => frames_of(stream@) is None,
        },
{
    let mut frames: Vec<Vec<u8>> = Vec::new();
    let mut at: usize = 0;
    proof {
        assert(stream@.subrange(0, stream.len() as int) =~= stream@);
        assert forall|rest: Seq<Seq<u8>>| #[trigger] (frame_views(frames@) + rest) == rest by {
            assert(frame_views(frames@) + rest =~= rest);
        }
    }
    while stream.len() - at >= 2
        invariant
            at <= stream.len(),
            frames_of(stream@) == (match frames_of(stream@.subrange(at as int, stream.len() as int)) {
                None => None,
                Some(rest) => Some(frame_views(frames@) + rest),
            }),
        decreases stream.len() - at,
    {
        let ghost tail = stream@.subrange(at as int, stream.len() as int);
        let ghost before = frame_views(frames@);
        let length: usize = stream[at] as usize + 0x100 * (stream[at + 1] as usize);
        assert(length == tail[0] + 0x100 * tail[1]);
        if stream.len() - at - 2 < length {
            return None;
        }
        let frame = slice_to_vec(slice_subrange(stream, at + 2, at + 2 + length));
        proof {
            assert(frame@ =~= tail.subrange(2, 2 + length));
            assert(tail.subrange(2 + length, tail.len() as int) =~= stream@.subrange(
                at + 2 + length,
                stream.len() as int,
            ));
            assert forall|rest: Seq<Seq<u8>>| #[trigger]
                (before + (seq![frame@] + rest)) == before.push(frame@) + rest by {
                assert((before + (seq![frame@] + rest)) =~= before.push(frame@) + rest);
            }
        }
        frames.push(frame);
        assert(frame_views(frames@) =~= before.push(frame@));
        at = at + 2 + length;
    }
    assert(frames_of(stream@.subrange(at as int, stream.len() as int)) == Some(
        Seq::<Seq<u8>>::empty(),
    ));
    assert(frame_views(frames@) + Seq::<Seq<u8>>::empty() =~= frame_views(frames@));
    Some(frames)
}

/// What the analysis reads of one protocol message.
#[derive(Debug, Clone, Copy, PartialEq, Eq, Structural)]
pub enum ZenohMessage {
    /// A data message, with the size of its payload.
    Data { payload_len: usize },
    /// Any other message.
    Other,
}

/// What the analysis reads of one transport message.
#[derive(Debug, Clone, PartialEq, Eq)]
pub enum TransportMessage {
    /// A frame that carries whole protocol messages.
    Frame(Vec<ZenohMessage>),
    /// Any other message.
    Other,
}

/// The protocol messages that one transport message carries.
pub open spec fn carried(message: TransportMessage) -> Seq<ZenohMessage> {
    match message {
        TransportMessage::Frame(messages) => messages@,
        TransportMessage::Other => Seq::empty(),
    }
}

/// The protocol messages that the transport messages carry, in their order.
pub open spec fn carried_all(data: Seq<TransportMessage>) -> Seq<ZenohMessage>
    decreases data.len(),
{
    if data.len() == 0 {
        Seq::empty()
    } else {
        carried_all(data.drop_last()) + carried(data.last())
    }
}

/// Takes the protocol messages out of the frames that carry them.
pub fn read_zenoh_messages(data: Vec<TransportMessage>) -> (messages: Vec<ZenohMessage>)
    ensures
        messages@ == carried_all(data@),
{
    let mut messages: Vec<ZenohMessage> = Vec::new();
    let mut i: usize = 0;
    while i < data.len()
        invariant
            i <= data.len(),
            messages@ == carried_all(data@.subrange(0, i as int)),
        decreases data.len() - i,
    {
        let ghost upto = data@.subrange(0, i + 1);
        assert(upto.drop_last() =~= data@.subrange(0, i as int));
        assert(upto.last() == data@[i as int]);
        match &data[i] {
            TransportMessage::Frame(carried_here) => {
                let mut j: usize = 0;
                while j < carried_here.len()
                    invariant
                        j <= carried_here.len(),
                        messages@ == carried_all(data@.subrange(0, i as int))
                            + carried_here@.subrange(0, j as int),
                    decreases carried_here.len() - j,
                {
                    messages.push(carried_here[j]);
                    assert(carried_here@.subrange(0, j + 1) =~= carried_here@.subrange(
                        0,
                        j as int,
                    ).push(carried_here@[j as int]));
                    j = j + 1;
                }
                assert(carried_here@.subrange(0, j as int) =~= carried_here@);
            },
            TransportMessage::Other => {
                assert(messages@ + Seq::<ZenohMessage>::empty() =~= messages@);
            },
        }
        i = i + 1;
    }
    assert(data@.subrange(0, i as int) =~= data@);
    messages
}

/// The data messages among some messages, and the bytes of their payloads.
#[derive(Debug, Clone, Copy, PartialEq, Eq, Structural)]
pub struct PayloadSummary {
    pub data_count: usize,
    pub payload_size: u128,
}

/// The number of data messages among `messages`.
pub open spec fn data_count(messages: Seq<ZenohMessage>) -> nat
    decreases messages.len(),
{
    if messages.len() == 0 {
        0
    } else {
        data_count(messages.drop_last()) + (if messages.last() is Data {
            1nat
        } else {
            0nat
        })
    }
}

/// The summed payload sizes of the data messages among `messages`.
pub open spec fn payload_size(messages: Seq<ZenohMessage>) -> nat
    decreases messages.len(),
{
    if messages.len() == 0 {
        0
    } else {
        payload_size(messages.drop_last()) + (match messages.last() {
            ZenohMessage::Data { payload_len } => payload_len as nat,
            ZenohMessage::Other => 0nat,
        })
    }
}

/// Counts the data messages and sums their payload sizes.
pub fn summarize(messages: &Vec<ZenohMessage>) -> (summary: PayloadSummary)
    ensures
        summary.data_count == data_count(messages@),
        summary.payload_size == payload_size(messages@),
{
    let mut count: usize = 0;
    let mut size: u128 = 0;
    let mut i: usize = 0;
    while i < messages.len()
        invariant
            i <= messages.len(),
            count == data_count(messages@.subrange(0, i as int)),
            count <= i,
            size == payload_size(messages@.subrange(0, i as int)),
            size <= i * usize::MAX,
        decreases messages.len() - i,
    {
        let ghost upto = messages@.subrange(0, i + 1);
        assert(upto.drop_last() =~= messages@.subrange(0, i as int));
        assert(upto.last() == messages@[i as int]);
        assert((i + 1) * usize::MAX == i * usize::MAX + usize::MAX) by (nonlinear_arith);
        assert(i * usize::MAX + usize::MAX <= usize::MAX * usize::MAX) by (nonlinear_arith)
            requires
                i < usize::MAX,
        ;
        assert(usize::MAX * usize::MAX <= u64::MAX * u64::MAX) by (nonlinear_arith)
            requires
                usize::MAX <= u64::MAX,
        ;
        match messages[i] {
            ZenohMessage::Data { payload_len } => {
                count = count + 1;
                size = size + payload_len as u128;
            },
            ZenohMessage::Other => {},
        }
        i = i + 1;
    }
    assert(messages@.subrange(0, i as int) =~= messages@);
    PayloadSummary { data_count: count, payload_size: size }
}

/// The payload bytes per data message, rounded down. Without a data message
/// there is none.
pub fn per_message_payload(summary: &PayloadSummary) -> (mean: Option<u128>)
    ensures
        summary.data_count == 0 ==> mean is None,
        summary.data_count != 0 ==> mean == Some(
            (summary.payload_size / (summary.data_count as u128)) as u128,
        ),
{
    if summary.data_count == 0 {
        None
    } else {
        Some(summary.payload_size / summary.data_count as u128)
    }
}

} // verus!
