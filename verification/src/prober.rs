//! The latency prober: what to send, and what to make of each answer.
//!
//! A prober decides; it neither sends nor waits. Its caller publishes the
//! payloads it hands out, feeds it every message that arrives on the answer
//! channel, and tells it when the wait for an answer has run out.

use crate::codec::counted;
use crate::codec::decode_at;
use crate::codec::decoded;
use crate::codec::encode_at;
use crate::codec::encoded;
use crate::codec::generate_payload;
use crate::codec::lemma_encode_decode;
use crate::codec::lemma_generate_parse;
use crate::codec::parse_payload;
use crate::codec::parsed;
use crate::codec::ConfigError;
use crate::codec::DecodeError;
use crate::codec::COUNT_HEADER_SIZE;
use crate::codec::MIN_PAYLOAD_SIZE;
use crate::pending::PendingTable;
use vstd::prelude::*;

verus! {

/// The number of sequence indices that a sender has.
pub const SEQUENCE_SPACE: u64 = 0x1_0000_0000;

/// The wait for the answer to one probe, in microseconds.
pub const RECV_TIMEOUT_US: u64 = 1_000_000;

/// One answered probe: the time from its sending to the arrival of its
/// answer.
#[derive(Debug, Clone, Copy, PartialEq, Eq, Structural)]
pub struct LatencySample {
    pub seq_index: u32,
    pub rtt_us: u64,
}

impl LatencySample {
    /// Half the round trip: the one-way latency if both ways take equally
    /// long.
    pub open spec fn spec_half_rtt_us(&self) -> u64 {
        self.rtt_us / 2
    }

    /// Half the round trip: the one-way latency if both ways take equally
    /// long.
    #[verifier::when_used_as_spec(spec_half_rtt_us)]
    pub fn half_rtt_us(&self) -> (half: u64)
        ensures
            half == self.rtt_us / 2,
    {
        self.rtt_us / 2
    }
}

/// What a prober makes of one received message.
#[derive(Debug, Clone, Copy, PartialEq, Eq, Structural)]
pub enum Verdict {
    /// The answer to an outstanding probe of this prober.
    Sample(LatencySample),
    /// A message on another topic than the one on which answers travel:
    /// dropped without notice.
    OtherTopic,
    /// A well-formed payload of another sender: dropped without notice.
    Foreign,
    /// A payload of this sender that answers no outstanding probe: dropped
    /// without notice.
    Unmatched,
    /// Not a probe payload: to be logged. No probe is answered or lost by it.
    Malformed(DecodeError),
}

/// What the prober that sends one probe at a time makes of a message, when
/// it waits for the answer to `awaiting`. The checks are made in the order
/// in which they are written.
pub open spec fn sequential_verdict(
    sender_id: u32,
    payload_size: usize,
    answer_topic: Seq<char>,
    awaiting: Option<u32>,
    topic: Seq<char>,
    payload: Seq<u8>,
    now_us: u64,
) -> Verdict {
    if topic != answer_topic {
        Verdict::OtherTopic
    } else {
        match decoded(payload, payload_size, now_us) {
            Err(error) => Verdict::Malformed(error),
            Ok(info) => if info.sender_id != sender_id {
                Verdict::Foreign
            } else if awaiting != Some(info.seq_index) {
                Verdict::Unmatched
            } else {
                Verdict::Sample(
                    LatencySample { seq_index: info.seq_index, rtt_us: info.elapsed_us },
                )
            },
        }
    }
}

/// The awaited probe, sent at `sent_at_us` and echoed unchanged on the answer
/// topic, is a sample whenever it comes back: its round trip is the time
/// since it was sent.
pub proof fn lemma_echo_is_sample(
    sender_id: u32,
    payload_size: usize,
    answer_topic: Seq<char>,
    seq_index: u32,
    sent_at_us: u64,
    now_us: u64,
)
    requires
        payload_size >= MIN_PAYLOAD_SIZE,
        sent_at_us <= now_us,
    ensures
        sequential_verdict(
            sender_id,
            payload_size,
            answer_topic,
            Some(seq_index),
            answer_topic,
            encoded(sender_id, seq_index, sent_at_us, payload_size),
            now_us,
        ) == Verdict::Sample(LatencySample { seq_index, rtt_us: (now_us - sent_at_us) as u64 }),
{
    lemma_encode_decode(sender_id, seq_index, payload_size, sent_at_us, now_us);
}

/// The prober that sends one probe, waits for its answer or for the end of
/// the wait, and only then sends the next.
pub struct SequentialProber {
    sender_id: u32,
    payload_size: usize,
    answer_topic: String,
    sent: u64,
    awaiting: Option<u32>,
}

impl SequentialProber {
    #[verifier::type_invariant]
    spec fn inv(self) -> bool {
        &&& self.payload_size >= MIN_PAYLOAD_SIZE
        &&& self.sent <= SEQUENCE_SPACE
        &&& self.awaiting matches Some(seq) ==> seq + 1 == self.sent
    }

    /// The identity that this prober writes into its probes.
    pub closed spec fn sender_id(&self) -> u32 {
        self.sender_id
    }

    /// The size of each probe.
    pub closed spec fn payload_size(&self) -> usize {
        self.payload_size
    }

    /// The topic on which answers travel.
    pub closed spec fn answer_topic(&self) -> Seq<char> {
        self.answer_topic@
    }

    /// The number of probes handed out so far, which is also the sequence
    /// index of the next one.
    pub closed spec fn sent(&self) -> nat {
        self.sent as nat
    }

    /// The sequence index of the probe whose answer is waited for.
    pub closed spec fn awaiting(&self) -> Option<u32> {
        self.awaiting
    }

    /// A prober that has sent nothing. A payload size below the timed
    /// header's is refused.
    pub fn new(sender_id: u32, payload_size: usize, answer_topic: String) -> (res: Result<
        SequentialProber,
        ConfigError,
    >)
        ensures
            payload_size < MIN_PAYLOAD_SIZE ==> res == Err::<SequentialProber, ConfigError>(
                ConfigError::PayloadTooSmall,
            ),
            payload_size >= MIN_PAYLOAD_SIZE ==> res is Ok && res->Ok_0.sender_id() == sender_id
                && res->Ok_0.payload_size() == payload_size && res->Ok_0.answer_topic()
                == answer_topic@ && res->Ok_0.sent() == 0 && res->Ok_0.awaiting() is None,
    {
        if payload_size < MIN_PAYLOAD_SIZE {
            return Err(ConfigError::PayloadTooSmall);
        }
        Ok(SequentialProber { sender_id, payload_size, answer_topic, sent: 0, awaiting: None })
    }

    /// Hands out the next probe, stamped with `now_us`, and starts to wait for
    /// its answer; a probe that was still waited for is given up. Once every
    /// sequence index has been used there is no next probe.
    pub fn next_probe(&mut self, now_us: u64) -> (probe: Option<Vec<u8>>)
        ensures
            final(self).sender_id() == old(self).sender_id(),
            final(self).payload_size() == old(self).payload_size(),
            final(self).answer_topic() == old(self).answer_topic(),
            old(self).sent() < SEQUENCE_SPACE ==> probe is Some && probe->Some_0@ == encoded(
                old(self).sender_id(),
                old(self).sent() as u32,
                now_us,
                old(self).payload_size(),
            ) && final(self).sent() == old(self).sent() + 1 && final(self).awaiting() == Some(
                old(self).sent() as u32,
            ),
            old(self).sent() >= SEQUENCE_SPACE ==> probe is None && final(self).sent() == old(
                self,
            ).sent() && final(self).awaiting() == old(self).awaiting(),
    {
        proof {
            use_type_invariant(&*self);
        }
        if self.sent >= SEQUENCE_SPACE {
            return None;
        }
        let seq_index = self.sent as u32;
        match encode_at(self.sender_id, seq_index, self.payload_size, now_us) {
            Ok(payload) => {
                self.awaiting = None;
                self.sent = self.sent + 1;
                self.awaiting = Some(seq_index);
                Some(payload)
            },
            Err(_) => None,
        }
    }

    /// Judges a message that arrived on the answer channel when the clock
    /// read `now_us`. Only the answer to the awaited probe ends the wait.
    pub fn on_message(&mut self, topic: &String, payload: &[u8], now_us: u64) -> (verdict:
        Verdict)
        ensures
            verdict == sequential_verdict(
                old(self).sender_id(),
                old(self).payload_size(),
                old(self).answer_topic(),
                old(self).awaiting(),
                topic@,
                payload@,
                now_us,
            ),
            final(self).sender_id() == old(self).sender_id(),
            final(self).payload_size() == old(self).payload_size(),
            final(self).answer_topic() == old(self).answer_topic(),
            final(self).sent() == old(self).sent(),
            final(self).awaiting() == (if verdict is Sample {
                None
            } else {
                old(self).awaiting()
            }),
    {
        proof {
            use_type_invariant(&*self);
        }
        if !(*topic == self.answer_topic) {
            return Verdict::OtherTopic;
        }
        match decode_at(payload, self.payload_size, now_us) {
            Err(error) => Verdict::Malformed(error),
            Ok(info) => {
                if info.sender_id != self.sender_id {
                    return Verdict::Foreign;
                }
                match self.awaiting {
                    Some(seq_index) => {
                        if seq_index == info.seq_index {
                            self.awaiting = None;
                            Verdict::Sample(
                                LatencySample { seq_index, rtt_us: info.elapsed_us },
                            )
                        } else {
                            Verdict::Unmatched
                        }
                    },
                    None => Verdict::Unmatched,
                }
            },
        }
    }

    /// The number of probes handed out so far.
    pub fn probes_sent(&self) -> (n: u64)
        ensures
            n == self.sent(),
    {
        self.sent
    }

    /// The sequence index of the probe whose answer is waited for.
    pub fn awaited(&self) -> (seq_index: Option<u32>)
        ensures
            seq_index == self.awaiting(),
    {
        self.awaiting
    }

    /// Ends the wait without an answer. The probe that was waited for is
    /// lost; it is not sent again.
    pub fn on_timeout(&mut self) -> (lost: Option<u32>)
        ensures
            lost == old(self).awaiting(),
            final(self).awaiting() is None,
            final(self).sender_id() == old(self).sender_id(),
            final(self).payload_size() == old(self).payload_size(),
            final(self).answer_topic() == old(self).answer_topic(),
            final(self).sent() == old(self).sent(),
    {
        proof {
            use_type_invariant(&*self);
        }
        let lost = self.awaiting;
        self.awaiting = None;
        lost
    }
}

/// What the prober that sends without waiting makes of a message, when
/// `pending` holds the send times of its outstanding probes. The checks are
/// made in the order in which they are written.
pub open spec fn parallel_verdict(
    sender_id: u32,
    payload_size: usize,
    answer_topic: Seq<char>,
    pending: Map<u64, u64>,
    topic: Seq<char>,
    payload: Seq<u8>,
    now_us: u64,
) -> Verdict {
    if topic != answer_topic {
        Verdict::OtherTopic
    } else {
        match parsed(payload, payload_size) {
            Err(error) => Verdict::Malformed(error),
            Ok(info) => if info.producer_id != sender_id {
                Verdict::Foreign
            } else if !pending.contains_key(info.msg_index as u64) {
                Verdict::Unmatched
            } else if pending[info.msg_index as u64] > now_us {
                Verdict::Malformed(DecodeError::ClockSkew)
            } else {
                Verdict::Sample(
                    LatencySample {
                        seq_index: info.msg_index,
                        rtt_us: (now_us - pending[info.msg_index as u64]) as u64,
                    },
                )
            },
        }
    }
}

/// The outstanding probes after a message was judged: a payload of this
/// sender on the answer topic takes the probe that it names out of the
/// table.
pub open spec fn parallel_pending_after(
    sender_id: u32,
    payload_size: usize,
    answer_topic: Seq<char>,
    pending: Map<u64, u64>,
    topic: Seq<char>,
    payload: Seq<u8>,
) -> Map<u64, u64> {
    if topic != answer_topic {
        pending
    } else {
        match parsed(payload, payload_size) {
            Err(_) => pending,
            Ok(info) => if info.producer_id != sender_id {
                pending
            } else {
                pending.remove(info.msg_index as u64)
            },
        }
    }
}

/// An outstanding probe that is echoed unchanged on the answer topic is a
/// sample whenever it comes back, and is outstanding no longer.
pub proof fn lemma_echo_is_matched(
    sender_id: u32,
    payload_size: usize,
    answer_topic: Seq<char>,
    pending: Map<u64, u64>,
    seq_index: u32,
    now_us: u64,
)
    requires
        payload_size >= COUNT_HEADER_SIZE,
        pending.contains_key(seq_index as u64),
        pending[seq_index as u64] <= now_us,
    ensures
        parallel_verdict(
            sender_id,
            payload_size,
            answer_topic,
            pending,
            answer_topic,
            counted(sender_id, seq_index, payload_size),
            now_us,
        ) == Verdict::Sample(
            LatencySample { seq_index, rtt_us: (now_us - pending[seq_index as u64]) as u64 },
        ),
        parallel_pending_after(
            sender_id,
            payload_size,
            answer_topic,
            pending,
            answer_topic,
            counted(sender_id, seq_index, payload_size),
        ) == pending.remove(seq_index as u64),
{
    lemma_generate_parse(sender_id, seq_index, payload_size);
}

/// Whether a probe that was sent at `sent_at_us` has been without an answer
/// for `timeout_us` or longer when the clock reads `now_us`.
pub open spec fn is_overdue(sent_at_us: u64, now_us: u64, timeout_us: u64) -> bool {
    sent_at_us + timeout_us <= now_us
}

/// The outstanding probes that are overdue.
pub open spec fn overdue(pending: Map<u64, u64>, now_us: u64, timeout_us: u64) -> Set<u64> {
    Set::new(|id: u64| pending.contains_key(id) && is_overdue(pending[id], now_us, timeout_us))
}

/// The prober that sends at its own pace and matches each answer to the
/// probe that it names, by the table of outstanding probes.
///
/// A probe without an answer stays in the table until `expire` is called:
/// a caller that never calls it keeps every unanswered probe for the length
/// of the run.
pub struct ParallelProber {
    sender_id: u32,
    payload_size: usize,
    answer_topic: String,
    sent: u64,
    floor: u64,
    pending: PendingTable,
}

impl ParallelProber {
    /// What every prober that `new` made and that only its own methods
    /// changed satisfies: the payload has room for the header, no more probes
    /// were handed out than there are sequence indices, and every outstanding
    /// probe was handed out.
    pub closed spec fn wf(&self) -> bool {
        &&& self.payload_size >= COUNT_HEADER_SIZE
        &&& self.floor <= self.sent <= SEQUENCE_SPACE
        &&& forall|id: u64| self.pending@.contains_key(id) ==> self.floor <= id < self.sent
    }

    /// The identity that this prober writes into its probes.
    pub closed spec fn sender_id(&self) -> u32 {
        self.sender_id
    }

    /// The size of each probe.
    pub closed spec fn payload_size(&self) -> usize {
        self.payload_size
    }

    /// The topic on which answers travel.
    pub closed spec fn answer_topic(&self) -> Seq<char> {
        self.answer_topic@
    }

    /// The number of probes handed out so far, which is also the sequence
    /// index of the next one.
    pub closed spec fn sent(&self) -> nat {
        self.sent as nat
    }

    /// The send time of each outstanding probe, by its sequence index.
    pub closed spec fn pending(&self) -> Map<u64, u64> {
        self.pending@
    }

    /// Every outstanding probe was handed out: its sequence index is below
    /// the number of probes sent.
    pub proof fn lemma_pending_were_sent(&self, id: u64)
        requires
            self.wf(),
            self.pending().contains_key(id),
        ensures
            id < self.sent() <= SEQUENCE_SPACE,
    {
    }

    /// A prober that has sent nothing. A payload size below the counting
    /// header's is refused.
    pub fn new(sender_id: u32, payload_size: usize, answer_topic: String) -> (res: Result<
        ParallelProber,
        ConfigError,
    >)
        ensures
            payload_size < COUNT_HEADER_SIZE ==> res == Err::<ParallelProber, ConfigError>(
                ConfigError::PayloadTooSmall,
            ),
            payload_size >= COUNT_HEADER_SIZE ==> res is Ok && res->Ok_0.wf()
                && res->Ok_0.sender_id() == sender_id && res->Ok_0.payload_size() == payload_size
                && res->Ok_0.answer_topic() == answer_topic@ && res->Ok_0.sent() == 0
                && res->Ok_0.pending() == Map::<u64, u64>::empty(),
    {
        if payload_size < COUNT_HEADER_SIZE {
            return Err(ConfigError::PayloadTooSmall);
        }
        Ok(
            ParallelProber {
                sender_id,
                payload_size,
                answer_topic,
                sent: 0,
                floor: 0,
                pending: PendingTable::new(),
            },
        )
    }

    /// Hands out the next probe and enters it into the table as sent at
    /// `now_us`. Once every sequence index has been used there is no next
    /// probe.
    pub fn next_probe(&mut self, now_us: u64) -> (probe: Option<Vec<u8>>)
        requires
            old(self).wf(),
        ensures
            final(self).wf(),
            final(self).sender_id() == old(self).sender_id(),
            final(self).payload_size() == old(self).payload_size(),
            final(self).answer_topic() == old(self).answer_topic(),
            old(self).sent() < SEQUENCE_SPACE ==> probe is Some && probe->Some_0@ == counted(
                old(self).sender_id(),
                old(self).sent() as u32,
                old(self).payload_size(),
            ) && final(self).sent() == old(self).sent() + 1 && final(self).pending() == old(
                self,
            ).pending().insert(old(self).sent() as u64, now_us),
            old(self).sent() >= SEQUENCE_SPACE ==> probe is None && final(self).sent() == old(
                self,
            ).sent() && final(self).pending() == old(self).pending(),
    {
        if self.sent >= SEQUENCE_SPACE {
            return None;
        }
        let id = self.sent;
        match generate_payload(self.sender_id, id as u32, self.payload_size) {
            Ok(payload) => {
                self.sent = id + 1;
                self.pending.insert(id, now_us);
                Some(payload)
            },
            Err(_) => None,
        }
    }

    /// Judges a message that arrived when the clock read `now_us`. A payload
    /// of this sender on the answer topic takes the probe that it names out
    /// of the table.
    pub fn on_message(&mut self, topic: &String, payload: &[u8], now_us: u64) -> (verdict:
        Verdict)
        requires
            old(self).wf(),
        ensures
            final(self).wf(),
            verdict == parallel_verdict(
                old(self).sender_id(),
                old(self).payload_size(),
                old(self).answer_topic(),
                old(self).pending(),
                topic@,
                payload@,
                now_us,
            ),
            final(self).pending() == parallel_pending_after(
                old(self).sender_id(),
                old(self).payload_size(),
                old(self).answer_topic(),
                old(self).pending(),
                topic@,
                payload@,
            ),
            final(self).sender_id() == old(self).sender_id(),
            final(self).payload_size() == old(self).payload_size(),
            final(self).answer_topic() == old(self).answer_topic(),
            final(self).sent() == old(self).sent(),
    {
        if !(*topic == self.answer_topic) {
            return Verdict::OtherTopic;
        }
        match parse_payload(payload, self.payload_size) {
            Err(error) => Verdict::Malformed(error),
            Ok(info) => {
                if info.producer_id != self.sender_id {
                    return Verdict::Foreign;
                }
                match self.pending.remove(info.msg_index as u64) {
                    None => Verdict::Unmatched,
                    Some(sent_at_us) => {
                        if sent_at_us > now_us {
                            Verdict::Malformed(DecodeError::ClockSkew)
                        } else {
                            Verdict::Sample(
                                LatencySample {
                                    seq_index: info.msg_index,
                                    rtt_us: now_us - sent_at_us,
                                },
                            )
                        }
                    },
                }
            },
        }
    }

    /// Gives up the probes that are overdue when the clock reads `now_us`:
    /// takes them out of the table and returns their sequence indices, the
    /// lowest first. Each is a lost probe.
    pub fn expire(&mut self, now_us: u64, timeout_us: u64) -> (lost: Vec<u32>)
        requires
            old(self).wf(),
        ensures
            final(self).wf(),
            final(self).sender_id() == old(self).sender_id(),
            final(self).payload_size() == old(self).payload_size(),
            final(self).answer_topic() == old(self).answer_topic(),
            final(self).sent() == old(self).sent(),
            final(self).pending() == old(self).pending().remove_keys(
                overdue(old(self).pending(), now_us, timeout_us),
            ),
            forall|i: int, j: int| 0 <= i < j < lost@.len() ==> lost@[i] < lost@[j],
            forall|i: int|
                0 <= i < lost@.len() ==> overdue(old(self).pending(), now_us, timeout_us).contains(
                    #[trigger] lost@[i] as u64,
                ),
            forall|id: u64|
                overdue(old(self).pending(), now_us, timeout_us).contains(id) ==> id
                    < SEQUENCE_SPACE && lost@.contains(id as u32),
    {
        let ghost before = self.pending@;
        let ghost gone = overdue(before, now_us, timeout_us);
        let mut lost: Vec<u32> = Vec::new();
        let mut first_kept: Option<u64> = None;
        let mut id: u64 = self.floor;
        assert(self.pending@ =~= before.remove_keys(Set::new(|k: u64| k < id && gone.contains(k))));
        while id < self.sent
            invariant
                self.payload_size >= COUNT_HEADER_SIZE,
                self.floor <= id <= self.sent <= SEQUENCE_SPACE,
                self.floor == old(self).floor,
                self.sent == old(self).sent,
                self.sender_id == old(self).sender_id,
                self.payload_size == old(self).payload_size,
                self.answer_topic == old(self).answer_topic,
                before == old(self).pending@,
                gone == overdue(before, now_us, timeout_us),
                forall|k: u64| before.contains_key(k) ==> self.floor <= k < self.sent,
                self.pending@ == before.remove_keys(Set::new(|k: u64| k < id && gone.contains(k))),
                forall|i: int, j: int| 0 <= i < j < lost@.len() ==> lost@[i] < lost@[j],
                forall|i: int|
                    0 <= i < lost@.len() ==> lost@[i] < id && gone.contains(
                        #[trigger] lost@[i] as u64,
                    ),
                forall|k: u64| k < id && gone.contains(k) ==> lost@.contains(k as u32),
                match first_kept {
                    Some(kept) => self.floor <= kept < id && forall|k: u64|
                        self.pending@.contains_key(k) ==> kept <= k,
                    None => forall|k: u64| self.pending@.contains_key(k) ==> id <= k,
                },
            decreases self.sent - id,
        {
            let ghost table = self.pending@;
            let ghost found = lost@;
            match self.pending.get(id) {
                Some(sent_at_us) => {
                    if sent_at_us <= now_us && now_us - sent_at_us >= timeout_us {
                        self.pending.remove(id);
                        lost.push(id as u32);
                        assert(lost@[lost@.len() - 1] == id as u32);
                        assert forall|k: u64| k < id + 1 && gone.contains(k) implies lost@.contains(
                            k as u32,
                        ) by {
                            if k < id {
                                let at = choose|at: int|
                                    0 <= at < found.len() && found[at] == k as u32;
                                assert(lost@[at] == k as u32);
                            }
                        }
                        assert(self.pending@ =~= before.remove_keys(
                            Set::new(|k: u64| k < id + 1 && gone.contains(k)),
                        ));
                    } else {
                        if first_kept.is_none() {
                            first_kept = Some(id);
                        }
                        assert(self.pending@ =~= before.remove_keys(
                            Set::new(|k: u64| k < id + 1 && gone.contains(k)),
                        ));
                    }
                },
                None => {
                    assert(self.pending@ =~= before.remove_keys(
                        Set::new(|k: u64| k < id + 1 && gone.contains(k)),
                    ));
                },
            }
            id = id + 1;
        }
        self.floor = match first_kept {
            Some(kept) => kept,
            None => self.sent,
        };
        assert(self.pending@ =~= before.remove_keys(gone));
        lost
    }

    /// The number of probes handed out so far.
    pub fn probes_sent(&self) -> (n: u64)
        ensures
            n == self.sent(),
    {
        self.sent
    }

    /// The send time of the probe `seq_index`, if it is outstanding.
    pub fn sent_at(&self, seq_index: u32) -> (sent_at_us: Option<u64>)
        ensures
            sent_at_us == (if self.pending().contains_key(seq_index as u64) {
                Some(self.pending()[seq_index as u64])
            } else {
                None
            }),
    {
        self.pending.get(seq_index as u64)
    }

    /// The number of probes that are still without an answer.
    pub fn outstanding(&self) -> (n: usize)
        ensures
            n == self.pending().len(),
    {
        self.pending.len()
    }
}

} // verus!
