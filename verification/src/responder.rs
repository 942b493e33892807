//! The echo responder: every probe that arrives goes back unchanged.

use vstd::prelude::*;

verus! {

/// A message to publish.
#[derive(Debug, Clone, PartialEq, Eq)]
pub struct Echo {
    pub topic: String,
    pub payload: Vec<u8>,
}

/// The two channels of a responder. It keeps nothing between messages.
#[derive(Debug, Clone, PartialEq, Eq)]
pub struct EchoResponder {
    /// The topic on which probes arrive.
    pub source_topic: String,
    /// The topic on which they are sent back.
    pub dest_topic: String,
}

impl EchoResponder {
    /// A responder that answers on `dest_topic` what arrives on
    /// `source_topic`.
    pub fn new(source_topic: String, dest_topic: String) -> (responder: EchoResponder)
        ensures
            responder.source_topic@ == source_topic@,
            responder.dest_topic@ == dest_topic@,
    {
        EchoResponder { source_topic, dest_topic }
    }

    /// The answer to a message that arrived on `topic`: the same bytes, on
    /// the destination topic. A message on any other topic gets no answer.
    pub fn on_message(&self, topic: &String, payload: Vec<u8>) -> (echo: Option<Echo>)
        ensures
            topic@ == self.source_topic@ ==> echo is Some && echo->Some_0.topic@
                == self.dest_topic@ && echo->Some_0.payload@ == payload@,
            topic@ != self.source_topic@ ==> echo is None,
    {
        if *topic == self.source_topic {
            Some(Echo { topic: self.dest_topic.clone(), payload })
        } else {
            None
        }
    }
}

} // verus!
