//! Request and reply: timing each query from its sending to its reply.

use crate::pending::PendingTable;
use vstd::prelude::*;

verus! {

/// One answered query: the size of the reply and the time it took.
#[derive(Debug, Clone, Copy, PartialEq, Eq, Structural)]
pub struct QueryLatency {
    pub qid: u64,
    pub payload_len: usize,
    pub elapsed_us: u64,
}

/// What the receiving side makes of one reply.
#[derive(Debug, Clone, Copy, PartialEq, Eq, Structural)]
pub enum ReplyVerdict {
    /// The reply to an outstanding query.
    Answered(QueryLatency),
    /// A reply to no outstanding query.
    Unknown,
    /// A reply to a query that was entered as sent later than now.
    ClockSkew,
}

/// What a reply to the query `qid` is, when `pending` holds the send times
/// of the outstanding queries.
pub open spec fn reply_verdict(pending: Map<u64, u64>, qid: u64, payload_len: usize, now_us: u64)
    -> ReplyVerdict {
    if !pending.contains_key(qid) {
        ReplyVerdict::Unknown
    } else if pending[qid] > now_us {
        ReplyVerdict::ClockSkew
    } else {
        ReplyVerdict::Answered(
            QueryLatency { qid, payload_len, elapsed_us: (now_us - pending[qid]) as u64 },
        )
    }
}

/// The receiving side of a query run: it knows the run by its scenario and
/// its name, and holds the queries that wait for their reply.
pub struct QueryPrimitives {
    scenario: String,
    name: String,
    pending: PendingTable,
}

impl QueryPrimitives {
    /// The scenario that the run belongs to.
    pub closed spec fn scenario(&self) -> Seq<char> {
        self.scenario@
    }

    /// The name of the run.
    pub closed spec fn name(&self) -> Seq<char> {
        self.name@
    }

    /// The send time of each outstanding query, by its identity.
    pub closed spec fn pending(&self) -> Map<u64, u64> {
        self.pending@
    }

    /// The receiving side of the run `name` of `scenario`, with the queries
    /// of `pending` outstanding.
    pub fn new(scenario: String, name: String, pending: PendingTable) -> (primitives:
        QueryPrimitives)
        ensures
            primitives.scenario() == scenario@,
            primitives.name() == name@,
            primitives.pending() == pending@,
    {
        QueryPrimitives { scenario, name, pending }
    }

    /// The scenario that the run belongs to.
    pub fn scenario_name(&self) -> (scenario: &String)
        ensures
            scenario@ == self.scenario(),
    {
        &self.scenario
    }

    /// The name of the run.
    pub fn run_name(&self) -> (name: &String)
        ensures
            name@ == self.name(),
    {
        &self.name
    }

    /// Enters the query `qid` as sent at `now_us`.
    pub fn send_query(&mut self, qid: u64, now_us: u64)
        ensures
            final(self).pending() == old(self).pending().insert(qid, now_us),
            final(self).scenario() == old(self).scenario(),
            final(self).name() == old(self).name(),
    {
        self.pending.insert(qid, now_us);
    }

    /// Judges the reply to the query `qid` that arrived when the clock read
    /// `now_us`, and takes the query out of the table.
    pub fn send_reply_data(&mut self, qid: u64, payload_len: usize, now_us: u64) -> (verdict:
        ReplyVerdict)
        ensures
            verdict == reply_verdict(old(self).pending(), qid, payload_len, now_us),
            final(self).pending() == old(self).pending().remove(qid),
            final(self).scenario() == old(self).scenario(),
            final(self).name() == old(self).name(),
    {
        match self.pending.remove(qid) {
            None => ReplyVerdict::Unknown,
            Some(sent_at_us) => {
                if sent_at_us > now_us {
                    ReplyVerdict::ClockSkew
                } else {
                    ReplyVerdict::Answered(
                        QueryLatency { qid, payload_len, elapsed_us: now_us - sent_at_us },
                    )
                }
            },
        }
    }

    /// The number of queries that are still without a reply.
    pub fn outstanding(&self) -> (n: usize)
        ensures
            n == self.pending().len(),
    {
        self.pending.len()
    }
}

/// What the answering side reads of a message.
#[derive(Debug, Clone, Copy, PartialEq, Eq, Structural)]
pub enum Request {
    /// A query, with its identity.
    Query { qid: u64 },
    /// Anything else.
    Other,
}

/// The reply to one query.
#[derive(Debug, Clone, PartialEq, Eq)]
pub struct Reply {
    pub qid: u64,
    pub payload: Vec<u8>,
}

/// The answering side of a query run: it replies to every query with the
/// same number of zero bytes.
#[derive(Debug, Clone, Copy, PartialEq, Eq, Structural)]
pub struct ReplyHandler {
    pub payload: usize,
}

impl ReplyHandler {
    /// A handler whose replies hold `payload` bytes.
    pub fn new(payload: usize) -> (handler: ReplyHandler)
        ensures
            handler.payload == payload,
    {
        ReplyHandler { payload }
    }

    /// The reply to `request`. Only a query gets one.
    pub fn handle_message(&self, request: Request) -> (reply: Option<Reply>)
        ensures
            match request {
                Request::Query { qid } => reply is Some && reply->Some_0.qid == qid
                    && reply->Some_0.payload@ == crate::codec::zeros(self.payload as nat),
                Request::Other => reply is None,
            },
    {
        match request {
            Request::Query { qid } => {
                let mut payload: Vec<u8> = Vec::new();
                payload.resize(self.payload, 0u8);
                assert(payload@ =~= crate::codec::zeros(self.payload as nat));
                Some(Reply { qid, payload })
            },
            Request::Other => None,
        }
    }
}

} // verus!
