//! Fixed-width little-endian headers at the front of a probe payload.
//!
//! A payload of `S` bytes starts with the sender identity (bytes 0..4) and the
//! sequence index (bytes 4..8). The timed layout adds the send time in
//! microseconds since the sender's epoch (bytes 8..16). Everything after the
//! header is zero.

use crate::clock::Clock;
use vstd::prelude::*;

verus! {

/// Bytes taken by the sender identity and the sequence index.
pub const COUNT_HEADER_SIZE: usize = 8;

/// Bytes taken by the header that also carries the send time.
pub const MIN_PAYLOAD_SIZE: usize = 16;

/// A payload size that no payload of the wanted layout can have.
#[derive(Debug, Clone, Copy, PartialEq, Eq, Structural)]
pub enum ConfigError {
    /// The size is smaller than the header.
    PayloadTooSmall,
    /// The size leaves no room for the transport's own packet header.
    PayloadTooLarge,
}

/// Why a received buffer is not a probe payload.
#[derive(Debug, Clone, Copy, PartialEq, Eq, Structural)]
pub enum DecodeError {
    /// The buffer is shorter than the header.
    TooShort,
    /// The buffer holds a header but not the expected number of bytes.
    SizeMismatch,
    /// The send time in the header is later than the receiver's clock.
    ClockSkew,
}

/// What the timed header of a payload says, and how long ago it was sent.
#[derive(Debug, Clone, Copy, PartialEq, Eq, Structural)]
pub struct ProbeInfo {
    pub sender_id: u32,
    pub seq_index: u32,
    pub send_time_us: u64,
    pub elapsed_us: u64,
}

/// What the counting header of a payload says.
#[derive(Debug, Clone, Copy, PartialEq, Eq, Structural)]
pub struct PayloadInfo {
    pub producer_id: u32,
    pub msg_index: u32,
    pub payload_size: usize,
}

/// The four bytes of `x`, least significant first.
pub open spec fn u32_le(x: u32) -> Seq<u8> {
    seq![
        (x % 0x100) as u8,
        (x / 0x100 % 0x100) as u8,
        (x / 0x1_0000 % 0x100) as u8,
        (x / 0x100_0000) as u8,
    ]
}

/// The number whose little-endian bytes are the first four of `b`.
pub open spec fn u32_from_le(b: Seq<u8>) -> u32 {
    (b[0] + 0x100 * b[1] + 0x1_0000 * b[2] + 0x100_0000 * b[3]) as u32
}

/// The eight bytes of `x`, least significant first.
pub open spec fn u64_le(x: u64) -> Seq<u8> {
    seq![
        (x % 0x100) as u8,
        (x / 0x100 % 0x100) as u8,
        (x / 0x1_0000 % 0x100) as u8,
        (x / 0x100_0000 % 0x100) as u8,
        (x / 0x1_0000_0000 % 0x100) as u8,
        (x / 0x100_0000_0000 % 0x100) as u8,
        (x / 0x1_0000_0000_0000 % 0x100) as u8,
        (x / 0x100_0000_0000_0000) as u8,
    ]
}

/// The number whose little-endian bytes are the first eight of `b`.
pub open spec fn u64_from_le(b: Seq<u8>) -> u64 {
    (b[0] + 0x100 * b[1] + 0x1_0000 * b[2] + 0x100_0000 * b[3] + 0x1_0000_0000 * b[4]
        + 0x100_0000_0000 * b[5] + 0x1_0000_0000_0000 * b[6] + 0x100_0000_0000_0000 * b[7]) as u64
}

/// `n` zero bytes.
pub open spec fn zeros(n: nat) -> Seq<u8> {
    Seq::new(n, |i: int| 0u8)
}

/// The sender identity in the header of `buf`.
pub open spec fn header_sender(buf: Seq<u8>) -> u32 {
    u32_from_le(buf.subrange(0, 4))
}

/// The sequence index in the header of `buf`.
pub open spec fn header_seq(buf: Seq<u8>) -> u32 {
    u32_from_le(buf.subrange(4, 8))
}

/// The send time in the timed header of `buf`.
pub open spec fn header_time(buf: Seq<u8>) -> u64 {
    u64_from_le(buf.subrange(8, 16))
}

/// The timed payload of `total_size >= 16` bytes.
pub open spec fn encoded(sender_id: u32, seq_index: u32, send_time_us: u64, total_size: usize) -> Seq<
    u8,
> {
    u32_le(sender_id) + u32_le(seq_index) + u64_le(send_time_us) + zeros(
        (total_size - MIN_PAYLOAD_SIZE) as nat,
    )
}

/// What a receiver whose clock reads `now_us` makes of `buf`. The three
/// failures are tried in the order in which they are written.
pub open spec fn decoded(buf: Seq<u8>, expected_size: usize, now_us: u64) -> Result<
    ProbeInfo,
    DecodeError,
> {
    if buf.len() < MIN_PAYLOAD_SIZE {
        Err(DecodeError::TooShort)
    } else if buf.len() != expected_size {
        Err(DecodeError::SizeMismatch)
    } else if header_time(buf) > now_us {
        Err(DecodeError::ClockSkew)
    } else {
        Ok(
            ProbeInfo {
                sender_id: header_sender(buf),
                seq_index: header_seq(buf),
                send_time_us: header_time(buf),
                elapsed_us: (now_us - header_time(buf)) as u64,
            },
        )
    }
}

/// The counting payload of `payload_size >= 8` bytes.
pub open spec fn counted(producer_id: u32, msg_index: u32, payload_size: usize) -> Seq<u8> {
    u32_le(producer_id) + u32_le(msg_index) + zeros((payload_size - COUNT_HEADER_SIZE) as nat)
}

/// What a receiver makes of a counting payload.
pub open spec fn parsed(payload: Seq<u8>, expect_size: usize) -> Result<PayloadInfo, DecodeError> {
    if payload.len() < COUNT_HEADER_SIZE {
        Err(DecodeError::TooShort)
    } else if payload.len() != expect_size {
        Err(DecodeError::SizeMismatch)
    } else {
        Ok(
            PayloadInfo {
                producer_id: header_sender(payload),
                msg_index: header_seq(payload),
                payload_size: expect_size,
            },
        )
    }
}

/// Reading back the bytes of a 32-bit number gives the number.
pub proof fn lemma_u32_round_trip(x: u32)
    ensures
        u32_le(x).len() == 4,
        u32_from_le(u32_le(x)) == x,
{
}

/// Reading back the bytes of a 64-bit number gives the number.
pub proof fn lemma_u64_round_trip(x: u64)
    ensures
        u64_le(x).len() == 8,
        u64_from_le(u64_le(x)) == x,
{
    let q1 = x / 0x100;
    let q2 = x / 0x1_0000;
    let q3 = x / 0x100_0000;
    let q4 = x / 0x1_0000_0000;
    let q5 = x / 0x100_0000_0000;
    let q6 = x / 0x1_0000_0000_0000;
    let q7 = x / 0x100_0000_0000_0000;
    assert(q2 == q1 / 0x100);
    assert(q3 == q2 / 0x100);
    assert(q4 == q3 / 0x100);
    assert(q5 == q4 / 0x100);
    assert(q6 == q5 / 0x100);
    assert(q7 == q6 / 0x100);
    assert(x == x % 0x100 + 0x100 * q1);
    assert(q1 == q1 % 0x100 + 0x100 * q2);
    assert(q2 == q2 % 0x100 + 0x100 * q3);
    assert(q3 == q3 % 0x100 + 0x100 * q4);
    assert(q4 == q4 % 0x100 + 0x100 * q5);
    assert(q5 == q5 % 0x100 + 0x100 * q6);
    assert(q6 == q6 % 0x100 + 0x100 * q7);
    assert(q7 < 0x100);
}

/// Writing out the number read from four bytes gives the four bytes.
pub proof fn lemma_u32_bytes_round_trip(b: Seq<u8>)
    requires
        b.len() == 4,
    ensures
        u32_le(u32_from_le(b)) == b,
{
    assert(u32_le(u32_from_le(b)) =~= b);
}

/// Writing out the number read from eight bytes gives the eight bytes.
pub proof fn lemma_u64_bytes_round_trip(b: Seq<u8>)
    requires
        b.len() == 8,
    ensures
        u64_le(u64_from_le(b)) == b,
{
    let r7: int = b[7] as int;
    let r6: int = b[6] + 0x100 * r7;
    let r5: int = b[5] + 0x100 * r6;
    let r4: int = b[4] + 0x100 * r5;
    let r3: int = b[3] + 0x100 * r4;
    let r2: int = b[2] + 0x100 * r3;
    let r1: int = b[1] + 0x100 * r2;
    let r0: int = b[0] + 0x100 * r1;
    let x = u64_from_le(b);
    assert(x == r0);
    assert(r0 / 0x100 == r1 && r0 % 0x100 == b[0]);
    assert(r1 / 0x100 == r2 && r1 % 0x100 == b[1]);
    assert(r2 / 0x100 == r3 && r2 % 0x100 == b[2]);
    assert(r3 / 0x100 == r4 && r3 % 0x100 == b[3]);
    assert(r4 / 0x100 == r5 && r4 % 0x100 == b[4]);
    assert(r5 / 0x100 == r6 && r5 % 0x100 == b[5]);
    assert(r6 / 0x100 == r7 && r6 % 0x100 == b[6]);
    assert(x / 0x100 == r1);
    assert(x / 0x1_0000 == r2);
    assert(x / 0x100_0000 == r3);
    assert(x / 0x1_0000_0000 == r4);
    assert(x / 0x100_0000_0000 == r5);
    assert(x / 0x1_0000_0000_0000 == r6);
    assert(x / 0x100_0000_0000_0000 == r7);
    assert(u64_le(x) =~= b);
}

/// Appends the little-endian bytes of `x` to `out`.
fn put_u32_le(out: &mut Vec<u8>, x: u32)
    ensures
        final(out)@ == old(out)@ + u32_le(x),
{
    out.push((x % 0x100) as u8);
    out.push((x / 0x100 % 0x100) as u8);
    out.push((x / 0x1_0000 % 0x100) as u8);
    out.push((x / 0x100_0000) as u8);
    assert(out@ =~= old(out)@ + u32_le(x));
}

/// Appends the little-endian bytes of `x` to `out`.
fn put_u64_le(out: &mut Vec<u8>, x: u64)
    ensures
        final(out)@ == old(out)@ + u64_le(x),
{
    out.push((x % 0x100) as u8);
    out.push((x / 0x100 % 0x100) as u8);
    out.push((x / 0x1_0000 % 0x100) as u8);
    out.push((x / 0x100_0000 % 0x100) as u8);
    out.push((x / 0x1_0000_0000 % 0x100) as u8);
    out.push((x / 0x100_0000_0000 % 0x100) as u8);
    out.push((x / 0x1_0000_0000_0000 % 0x100) as u8);
    out.push((x / 0x100_0000_0000_0000) as u8);
    assert(out@ =~= old(out)@ + u64_le(x));
}

/// Appends zero bytes to `out` until it holds `total` bytes.
fn pad_with_zeros(out: &mut Vec<u8>, total: usize)
    requires
        old(out).len() <= total,
    ensures
        final(out)@ == old(out)@ + zeros((total - old(out).len()) as nat),
{
    out.resize(total, 0u8);
    assert(out@ =~= old(out)@ + zeros((total - old(out).len()) as nat));
}

/// Reads the 32-bit number at `buf[at..at + 4]`.
fn get_u32_le(buf: &[u8], at: usize) -> (x: u32)
    requires
        at + 4 <= buf.len(),
    ensures
        x == u32_from_le(buf@.subrange(at as int, at + 4)),
{
    let b0: u32 = buf[at] as u32;
    let b1: u32 = buf[at + 1] as u32;
    let b2: u32 = buf[at + 2] as u32;
    let b3: u32 = buf[at + 3] as u32;
    b0 + 0x100 * b1 + 0x1_0000 * b2 + 0x100_0000 * b3
}

/// Reads the 64-bit number at `buf[at..at + 8]`.
fn get_u64_le(buf: &[u8], at: usize) -> (x: u64)
    requires
        at + 8 <= buf.len(),
    ensures
        x == u64_from_le(buf@.subrange(at as int, at + 8)),
{
    let b0: u64 = buf[at] as u64;
    let b1: u64 = buf[at + 1] as u64;
    let b2: u64 = buf[at + 2] as u64;
    let b3: u64 = buf[at + 3] as u64;
    let b4: u64 = buf[at + 4] as u64;
    let b5: u64 = buf[at + 5] as u64;
    let b6: u64 = buf[at + 6] as u64;
    let b7: u64 = buf[at + 7] as u64;
    b0 + 0x100 * b1 + 0x1_0000 * b2 + 0x100_0000 * b3 + 0x1_0000_0000 * b4 + 0x100_0000_0000 * b5
        + 0x1_0000_0000_0000 * b6 + 0x100_0000_0000_0000 * b7
}

/// Builds the timed payload of `total_size` bytes that says it was sent at
/// `send_time_us`. A size below the header's is refused.
pub fn encode_at(sender_id: u32, seq_index: u32, total_size: usize, send_time_us: u64) -> (res:
    Result<Vec<u8>, ConfigError>)
    ensures
        total_size < MIN_PAYLOAD_SIZE ==> res == Err::<Vec<u8>, ConfigError>(
            ConfigError::PayloadTooSmall,
        ),
        total_size >= MIN_PAYLOAD_SIZE ==> res is Ok && res->Ok_0@ == encoded(
            sender_id,
            seq_index,
            send_time_us,
            total_size,
        ),
{
    if total_size < MIN_PAYLOAD_SIZE {
        return Err(ConfigError::PayloadTooSmall);
    }
    let mut payload: Vec<u8> = Vec::with_capacity(total_size);
    put_u32_le(&mut payload, sender_id);
    put_u32_le(&mut payload, seq_index);
    put_u64_le(&mut payload, send_time_us);
    pad_with_zeros(&mut payload, total_size);
    Ok(payload)
}

/// Reads a timed payload as a receiver whose clock reads `now_us`.
pub fn decode_at(buf: &[u8], expected_size: usize, now_us: u64) -> (res: Result<
    ProbeInfo,
    DecodeError,
>)
    ensures
        res == decoded(buf@, expected_size, now_us),
{
    if buf.len() < MIN_PAYLOAD_SIZE {
        return Err(DecodeError::TooShort);
    }
    if buf.len() != expected_size {
        return Err(DecodeError::SizeMismatch);
    }
    let sender_id = get_u32_le(buf, 0);
    let seq_index = get_u32_le(buf, 4);
    let send_time_us = get_u64_le(buf, 8);
    if send_time_us > now_us {
        return Err(DecodeError::ClockSkew);
    }
    Ok(ProbeInfo { sender_id, seq_index, send_time_us, elapsed_us: now_us - send_time_us })
}

/// The header of a timed payload reads back as what was written into it.
pub proof fn lemma_encoded_header(
    sender_id: u32,
    seq_index: u32,
    send_time_us: u64,
    total_size: usize,
)
    requires
        total_size >= MIN_PAYLOAD_SIZE,
    ensures
        encoded(sender_id, seq_index, send_time_us, total_size).len() == total_size,
        header_sender(encoded(sender_id, seq_index, send_time_us, total_size)) == sender_id,
        header_seq(encoded(sender_id, seq_index, send_time_us, total_size)) == seq_index,
        header_time(encoded(sender_id, seq_index, send_time_us, total_size)) == send_time_us,
{
    let buf = encoded(sender_id, seq_index, send_time_us, total_size);
    lemma_u32_round_trip(sender_id);
    lemma_u32_round_trip(seq_index);
    lemma_u64_round_trip(send_time_us);
    assert(buf.subrange(0, 4) =~= u32_le(sender_id));
    assert(buf.subrange(4, 8) =~= u32_le(seq_index));
    assert(buf.subrange(8, 16) =~= u64_le(send_time_us));
}

/// Builds the timed payload of `total_size` bytes, stamped with a reading
/// of `clock` that is taken now. A size below the header's is refused, and
/// the clock is then not read.
pub fn encode(clock: &mut Clock, sender_id: u32, seq_index: u32, total_size: usize) -> (res:
    Result<Vec<u8>, ConfigError>)
    ensures
        total_size < MIN_PAYLOAD_SIZE ==> res == Err::<Vec<u8>, ConfigError>(
            ConfigError::PayloadTooSmall,
        ) && final(clock).last_reading() == old(clock).last_reading(),
        total_size >= MIN_PAYLOAD_SIZE ==> res is Ok && res->Ok_0@ == encoded(
            sender_id,
            seq_index,
            final(clock).last_reading(),
            total_size,
        ) && final(clock).last_reading() >= old(clock).last_reading(),
{
    if total_size < MIN_PAYLOAD_SIZE {
        return Err(ConfigError::PayloadTooSmall);
    }
    let send_time_us = clock.now_us();
    encode_at(sender_id, seq_index, total_size, send_time_us)
}

/// Reads a timed payload against a reading of `clock` that is taken now.
pub fn decode(clock: &mut Clock, buf: &[u8], expected_size: usize) -> (res: Result<
    ProbeInfo,
    DecodeError,
>)
    ensures
        res == decoded(buf@, expected_size, final(clock).last_reading()),
        final(clock).last_reading() >= old(clock).last_reading(),
{
    let now_us = clock.now_us();
    decode_at(buf, expected_size, now_us)
}

/// Builds the counting payload of `payload_size` bytes. A size below the
/// header's is refused.
pub fn generate_payload(producer_id: u32, msg_index: u32, payload_size: usize) -> (res: Result<
    Vec<u8>,
    ConfigError,
>)
    ensures
        payload_size < COUNT_HEADER_SIZE ==> res == Err::<Vec<u8>, ConfigError>(
            ConfigError::PayloadTooSmall,
        ),
        payload_size >= COUNT_HEADER_SIZE ==> res is Ok && res->Ok_0@ == counted(
            producer_id,
            msg_index,
            payload_size,
        ),
{
    if payload_size < COUNT_HEADER_SIZE {
        return Err(ConfigError::PayloadTooSmall);
    }
    let mut payload: Vec<u8> = Vec::with_capacity(payload_size);
    put_u32_le(&mut payload, producer_id);
    put_u32_le(&mut payload, msg_index);
    pad_with_zeros(&mut payload, payload_size);
    Ok(payload)
}

/// Reads a counting payload that is expected to hold `expect_size` bytes.
pub fn parse_payload(payload: &[u8], expect_size: usize) -> (res: Result<PayloadInfo, DecodeError>)
    ensures
        res == parsed(payload@, expect_size),
{
    let payload_size = payload.len();
    if payload_size < COUNT_HEADER_SIZE {
        return Err(DecodeError::TooShort);
    }
    if payload_size != expect_size {
        return Err(DecodeError::SizeMismatch);
    }
    let producer_id = get_u32_le(payload, 0);
    let msg_index = get_u32_le(payload, 4);
    Ok(PayloadInfo { producer_id, msg_index, payload_size })
}

/// A timed payload read back at or after its send time names its sender and
/// its sequence index, and the time that has passed since it was sent.
pub proof fn lemma_encode_decode(
    sender_id: u32,
    seq_index: u32,
    total_size: usize,
    send_time_us: u64,
    now_us: u64,
)
    requires
        total_size >= MIN_PAYLOAD_SIZE,
        send_time_us <= now_us,
    ensures
        decoded(encoded(sender_id, seq_index, send_time_us, total_size), total_size, now_us) == Ok::<
            ProbeInfo,
            DecodeError,
        >(
            ProbeInfo {
                sender_id,
                seq_index,
                send_time_us,
                elapsed_us: (now_us - send_time_us) as u64,
            },
        ),
{
    lemma_encoded_header(sender_id, seq_index, send_time_us, total_size);
}

/// A counting payload read back names its producer and its message index.
pub proof fn lemma_generate_parse(producer_id: u32, msg_index: u32, payload_size: usize)
    requires
        payload_size >= COUNT_HEADER_SIZE,
    ensures
        parsed(counted(producer_id, msg_index, payload_size), payload_size) == Ok::<
            PayloadInfo,
            DecodeError,
        >(PayloadInfo { producer_id, msg_index, payload_size }),
{
    let buf = counted(producer_id, msg_index, payload_size);
    lemma_u32_round_trip(producer_id);
    lemma_u32_round_trip(msg_index);
    assert(buf.subrange(0, 4) =~= u32_le(producer_id));
    assert(buf.subrange(4, 8) =~= u32_le(msg_index));
}

/// A buffer shorter than the timed header is too short, whatever size is
/// expected and whatever the clock reads.
pub proof fn lemma_short_buffer_is_too_short(buf: Seq<u8>, expected_size: usize, now_us: u64)
    requires
        buf.len() < MIN_PAYLOAD_SIZE,
    ensures
        decoded(buf, expected_size, now_us) == Err::<ProbeInfo, DecodeError>(DecodeError::TooShort),
{
}

/// A buffer that holds the timed header but not the expected number of bytes
/// is a size mismatch, whatever its header says and whatever the clock reads.
pub proof fn lemma_wrong_length_is_size_mismatch(buf: Seq<u8>, expected_size: usize, now_us: u64)
    requires
        buf.len() >= MIN_PAYLOAD_SIZE,
        buf.len() != expected_size,
    ensures
        decoded(buf, expected_size, now_us) == Err::<ProbeInfo, DecodeError>(
            DecodeError::SizeMismatch,
        ),
{
}

/// A buffer shorter than the counting header is too short, whatever size is
/// expected.
pub proof fn lemma_short_payload_is_too_short(payload: Seq<u8>, expect_size: usize)
    requires
        payload.len() < COUNT_HEADER_SIZE,
    ensures
        parsed(payload, expect_size) == Err::<PayloadInfo, DecodeError>(DecodeError::TooShort),
{
}

/// A buffer that holds the counting header but not the expected number of
/// bytes is a size mismatch.
pub proof fn lemma_wrong_payload_length_is_size_mismatch(payload: Seq<u8>, expect_size: usize)
    requires
        payload.len() >= COUNT_HEADER_SIZE,
        payload.len() != expect_size,
    ensures
        parsed(payload, expect_size) == Err::<PayloadInfo, DecodeError>(DecodeError::SizeMismatch),
{
}

} // verus!
