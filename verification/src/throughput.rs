//! Counting deliveries and turning each reporting window into a rate.

use crate::codec::counted;
use crate::codec::generate_payload;
use crate::codec::parse_payload;
use crate::codec::parsed;
use crate::codec::ConfigError;
use crate::codec::DecodeError;
use crate::codec::PayloadInfo;
use crate::codec::COUNT_HEADER_SIZE;
use vstd::prelude::*;

verus! {

/// The microseconds in a second.
pub const MICROS_PER_SECOND: u64 = 1_000_000;

/// The time between two reporting ticks, in microseconds.
pub const REPORT_INTERVAL_US: u64 = 1_000_000;

/// What one reporting window saw: the deliveries in it, as a count and as a
/// rate, and the mean latency where round trips were timed.
#[derive(Debug, Clone, Copy, PartialEq, Eq, Structural)]
pub struct RateSample {
    pub payload_size: usize,
    pub window_us: u64,
    pub delivered: u64,
    pub messages_per_second: u128,
    pub mean_latency_us: Option<u64>,
}

/// The deliveries per second, rounded down, when `delivered` messages came
/// in `window_us` microseconds.
pub open spec fn rate_per_second(delivered: u64, window_us: u64) -> nat {
    (delivered * MICROS_PER_SECOND / (window_us as int)) as nat
}

/// The deliveries, and where round trips are timed their summed duration,
/// since the last reporting tick.
#[derive(Debug, Clone, Copy, PartialEq, Eq, Structural)]
pub struct ThroughputCounter {
    pub delivered: u64,
    pub rtt_sum_us: Option<u64>,
}

impl ThroughputCounter {
    /// The counter after one more delivery.
    pub open spec fn after_record(self) -> ThroughputCounter {
        ThroughputCounter { delivered: (self.delivered + 1) as u64, rtt_sum_us: self.rtt_sum_us }
    }

    /// The counter after `n` more deliveries.
    pub open spec fn after_records(self, n: nat) -> ThroughputCounter
        decreases n,
    {
        if n == 0 {
            self
        } else {
            self.after_records((n - 1) as nat).after_record()
        }
    }

    /// The counter after a round trip of `rtt_us` was added. A counter that
    /// times no round trips stays as it is.
    pub open spec fn after_rtt(self, rtt_us: u64) -> ThroughputCounter {
        match self.rtt_sum_us {
            Some(sum) => ThroughputCounter {
                delivered: self.delivered,
                rtt_sum_us: Some((sum + rtt_us) as u64),
            },
            None => self,
        }
    }

    /// The counter after a reporting tick: nothing delivered, nothing summed.
    pub open spec fn after_tick(self) -> ThroughputCounter {
        ThroughputCounter {
            delivered: 0,
            rtt_sum_us: match self.rtt_sum_us {
                Some(_) => Some(0u64),
                None => None,
            },
        }
    }

    /// The sample that a reporting tick emits after a window of `window_us`
    /// microseconds. A window without deliveries emits none.
    pub open spec fn sample_at_tick(self, payload_size: usize, window_us: u64) -> Option<
        RateSample,
    > {
        if self.delivered == 0 {
            None
        } else {
            Some(
                RateSample {
                    payload_size,
                    window_us,
                    delivered: self.delivered,
                    messages_per_second: rate_per_second(self.delivered, window_us) as u128,
                    mean_latency_us: match self.rtt_sum_us {
                        Some(sum) => Some(sum / self.delivered),
                        None => None,
                    },
                },
            )
        }
    }

    /// A counter of deliveries.
    pub fn new() -> (counter: ThroughputCounter)
        ensures
            counter == (ThroughputCounter { delivered: 0, rtt_sum_us: None }),
    {
        ThroughputCounter { delivered: 0, rtt_sum_us: None }
    }

    /// A counter of deliveries that also sums round-trip times.
    pub fn with_latency() -> (counter: ThroughputCounter)
        ensures
            counter == (ThroughputCounter { delivered: 0, rtt_sum_us: Some(0u64) }),
    {
        ThroughputCounter { delivered: 0, rtt_sum_us: Some(0) }
    }

    /// Counts one delivery.
    pub fn record(&mut self)
        requires
            old(self).delivered < u64::MAX,
        ensures
            *final(self) == old(self).after_record(),
    {
        self.delivered = self.delivered + 1;
    }

    /// Adds the duration of one round trip to the sum.
    pub fn record_rtt(&mut self, rtt_us: u64)
        requires
            old(self).rtt_sum_us matches Some(sum) ==> sum + rtt_us <= u64::MAX,
        ensures
            *final(self) == old(self).after_rtt(rtt_us),
    {
        match self.rtt_sum_us {
            Some(sum) => {
                self.rtt_sum_us = Some(sum + rtt_us);
            },
            None => {},
        }
    }

    /// The reporting tick: takes the counts of the window that ends now,
    /// `window_us` microseconds after the last tick, and starts the next
    /// window from zero.
    pub fn tick(&mut self, payload_size: usize, window_us: u64) -> (sample: Option<RateSample>)
        requires
            window_us > 0,
        ensures
            sample == old(self).sample_at_tick(payload_size, window_us),
            *final(self) == old(self).after_tick(),
    {
        let delivered = self.delivered;
        let rtt_sum_us = self.rtt_sum_us;
        self.delivered = 0;
        self.rtt_sum_us = match rtt_sum_us {
            Some(_) => Some(0),
            None => None,
        };
        if delivered == 0 {
            return None;
        }
        assert(delivered * MICROS_PER_SECOND <= u64::MAX * 1_000_000) by (nonlinear_arith)
            requires
                delivered <= u64::MAX,
                MICROS_PER_SECOND == 1_000_000,
        ;
        let scaled: u128 = delivered as u128 * MICROS_PER_SECOND as u128;
        let messages_per_second: u128 = scaled / window_us as u128;
        let mean_latency_us = match rtt_sum_us {
            Some(sum) => Some(sum / delivered),
            None => None,
        };
        Some(RateSample { payload_size, window_us, delivered, messages_per_second, mean_latency_us })
    }
}

/// `n` deliveries after a tick leave a count of `n`.
proof fn lemma_after_records(start: ThroughputCounter, n: nat)
    requires
        start.delivered + n <= u64::MAX,
    ensures
        start.after_records(n).delivered == start.delivered + n,
        start.after_records(n).rtt_sum_us == start.rtt_sum_us,
    decreases n,
{
    if n > 0 {
        lemma_after_records(start, (n - 1) as nat);
    }
}

/// A window with `n > 0` deliveries, followed by a window without any: the
/// first tick emits `n` scaled to one second, the second tick emits nothing.
pub proof fn lemma_busy_window_then_idle_window(
    start: ThroughputCounter,
    n: u64,
    payload_size: usize,
    first_window_us: u64,
    second_window_us: u64,
)
    requires
        start.delivered == 0,
        n > 0,
        first_window_us > 0,
    ensures
        ({
            let busy = start.after_records(n as nat);
            let first = busy.sample_at_tick(payload_size, first_window_us);
            let second = busy.after_tick().sample_at_tick(payload_size, second_window_us);
            &&& first is Some
            &&& first->Some_0.delivered == n
            &&& first->Some_0.window_us == first_window_us
            &&& first->Some_0.messages_per_second == n * MICROS_PER_SECOND / (
            first_window_us as int)
            &&& second is None
        }),
{
    lemma_after_records(start, n as nat);
    assert(n * MICROS_PER_SECOND / (first_window_us as int) <= n * MICROS_PER_SECOND) by {
        vstd::arithmetic::div_mod::lemma_div_is_ordered_by_denominator(
            n * MICROS_PER_SECOND,
            1,
            first_window_us as int,
        );
    }
    assert(n * MICROS_PER_SECOND <= u64::MAX * MICROS_PER_SECOND) by (nonlinear_arith)
        requires
            n <= u64::MAX,
    ;
}

/// What became of one message on the subscriber's side.
#[derive(Debug, Clone, Copy, PartialEq, Eq, Structural)]
pub enum Delivery {
    /// A payload of the expected size on the subscribed topic: counted.
    Counted(PayloadInfo),
    /// A message on another topic: not counted.
    OtherTopic,
    /// Not a payload of the expected size: to be logged, not counted.
    Rejected(DecodeError),
}

/// What a subscriber to `subscribed` that expects payloads of `payload_size`
/// bytes makes of a message.
pub open spec fn delivery_of(
    subscribed: Seq<char>,
    payload_size: usize,
    topic: Seq<char>,
    payload: Seq<u8>,
) -> Delivery {
    if topic != subscribed {
        Delivery::OtherTopic
    } else {
        match parsed(payload, payload_size) {
            Ok(info) => Delivery::Counted(info),
            Err(error) => Delivery::Rejected(error),
        }
    }
}

/// Judges one received message and counts it if it is a delivery.
pub fn accept(
    counter: &mut ThroughputCounter,
    subscribed: &String,
    payload_size: usize,
    topic: &String,
    payload: &[u8],
) -> (delivery: Delivery)
    requires
        old(counter).delivered < u64::MAX,
    ensures
        delivery == delivery_of(subscribed@, payload_size, topic@, payload@),
        *final(counter) == (if delivery is Counted {
            old(counter).after_record()
        } else {
            *old(counter)
        }),
{
    if !(*topic == *subscribed) {
        return Delivery::OtherTopic;
    }
    match parse_payload(payload, payload_size) {
        Ok(info) => {
            counter.record();
            Delivery::Counted(info)
        },
        Err(error) => Delivery::Rejected(error),
    }
}

/// Counts one reply of a request and reply run if it holds the expected
/// number of bytes.
pub fn accept_reply(counter: &mut ThroughputCounter, payload_size: usize, reply_len: usize) -> (counted:
    bool)
    requires
        old(counter).delivered < u64::MAX,
    ensures
        counted == (reply_len == payload_size),
        *final(counter) == (if counted {
            old(counter).after_record()
        } else {
            *old(counter)
        }),
{
    if reply_len == payload_size {
        counter.record();
        true
    } else {
        false
    }
}

/// The receiving side of a run that counts every call that reaches it,
/// whatever the call carries.
#[derive(Debug, Clone, Copy, PartialEq, Eq, Structural)]
pub struct ThroughputPrimitives {
    pub count: ThroughputCounter,
}

impl ThroughputPrimitives {
    /// A receiving side that counts into `count`.
    pub fn new(count: ThroughputCounter) -> (primitives: ThroughputPrimitives)
        ensures
            primitives.count == count,
    {
        ThroughputPrimitives { count }
    }

    /// Counts one call.
    pub fn on_call(&mut self)
        requires
            old(self).count.delivered < u64::MAX,
        ensures
            final(self).count == old(self).count.after_record(),
    {
        self.count.record();
    }

    /// The reporting tick of the counter.
    pub fn tick(&mut self, payload_size: usize, window_us: u64) -> (sample: Option<RateSample>)
        requires
            window_us > 0,
        ensures
            sample == old(self).count.sample_at_tick(payload_size, window_us),
            final(self).count == old(self).count.after_tick(),
    {
        self.count.tick(payload_size, window_us)
    }
}

/// The sender of a throughput run: it numbers its payloads from zero and
/// starts again from zero after the last 32-bit index.
pub struct Producer {
    producer_id: u32,
    payload_size: usize,
    next_index: u32,
}

impl Producer {
    #[verifier::type_invariant]
    spec fn inv(self) -> bool {
        self.payload_size >= COUNT_HEADER_SIZE
    }

    /// The identity that this producer writes into its payloads.
    pub closed spec fn producer_id(&self) -> u32 {
        self.producer_id
    }

    /// The size of each payload.
    pub closed spec fn payload_size(&self) -> usize {
        self.payload_size
    }

    /// The index of the next payload.
    pub closed spec fn next_index(&self) -> u32 {
        self.next_index
    }

    /// A producer that has sent nothing. A payload size below the counting
    /// header's is refused.
    pub fn new(producer_id: u32, payload_size: usize) -> (res: Result<Producer, ConfigError>)
        ensures
            payload_size < COUNT_HEADER_SIZE ==> res == Err::<Producer, ConfigError>(
                ConfigError::PayloadTooSmall,
            ),
            payload_size >= COUNT_HEADER_SIZE ==> res is Ok && res->Ok_0.producer_id()
                == producer_id && res->Ok_0.payload_size() == payload_size
                && res->Ok_0.next_index() == 0,
    {
        if payload_size < COUNT_HEADER_SIZE {
            return Err(ConfigError::PayloadTooSmall);
        }
        Ok(Producer { producer_id, payload_size, next_index: 0 })
    }

    /// The index of the next payload.
    pub fn index(&self) -> (msg_index: u32)
        ensures
            msg_index == self.next_index(),
    {
        self.next_index
    }

    /// Hands out the next payload.
    pub fn next_payload(&mut self) -> (payload: Vec<u8>)
        ensures
            payload@ == counted(
                old(self).producer_id(),
                old(self).next_index(),
                old(self).payload_size(),
            ),
            final(self).producer_id() == old(self).producer_id(),
            final(self).payload_size() == old(self).payload_size(),
            final(self).next_index() == (old(self).next_index() + 1) % 0x1_0000_0000,
    {
        proof {
            use_type_invariant(&*self);
        }
        let msg_index = self.next_index;
        self.next_index = if msg_index == u32::MAX {
            0
        } else {
            msg_index + 1
        };
        match generate_payload(self.producer_id, msg_index, self.payload_size) {
            Ok(payload) => payload,
            Err(_) => Vec::new(),
        }
    }
}

/// The filler that the publishers of unnumbered payloads send: the byte at
/// place `i` is `i` modulo ten.
pub fn pattern_payload(payload_size: usize) -> (payload: Vec<u8>)
    ensures
        payload@.len() == payload_size,
        forall|i: int| 0 <= i < payload_size ==> payload@[i] == i % 10,
{
    let mut payload: Vec<u8> = Vec::with_capacity(payload_size);
    let mut i: usize = 0;
    while i < payload_size
        invariant
            i <= payload_size,
            payload@.len() == i,
            forall|j: int| 0 <= j < i ==> payload@[j] == j % 10,
        decreases payload_size - i,
    {
        payload.push((i % 10) as u8);
        i = i + 1;
    }
    payload
}

} // verus!
