//! What a run is configured with before it connects.

use crate::codec::ConfigError;
use vstd::prelude::*;
use vstd::string::StringExecFns;

verus! {

/// The topic of a throughput run.
pub const DEFAULT_THROUGHPUT_TOPIC: &'static str = "THROUGHPUT";

/// The topic on which probes travel.
pub const DEFAULT_PING_TOPIC: &'static str = "PING";

/// The topic on which answers travel.
pub const DEFAULT_PONG_TOPIC: &'static str = "PONG";

/// The group of a consumer that names none.
pub const DEFAULT_GROUP_ID: &'static str = "DUMMY_GROUP";

/// The number of requests that a client may have queued.
pub const DEFAULT_CAP_SIZE: usize = 10;

/// The bytes that the transport puts in front of a payload.
pub const PACKET_HEADER_SIZE: usize = 14;

/// The part that a process takes in the network.
#[derive(Debug, Clone, Copy, PartialEq, Eq, Hash, Structural)]
pub enum Mode {
    Peer,
    Client,
}

/// The mode that `name` stands for.
pub open spec fn mode_named(name: Seq<char>) -> Option<Mode> {
    if name == "peer"@ {
        Some(Mode::Peer)
    } else if name == "client"@ {
        Some(Mode::Client)
    } else {
        None
    }
}

impl Mode {
    /// The mode that `name` stands for: `peer` or `client`, in lower case.
    pub fn from_name(name: &str) -> (mode: Option<Mode>)
        ensures
            mode == mode_named(name@),
    {
        let given = String::from_str(name);
        if given == String::from_str("peer") {
            Some(Mode::Peer)
        } else if given == String::from_str("client") {
            Some(Mode::Client)
        } else {
            None
        }
    }

    /// Whether a process in this mode accepts connections. A peer listens
    /// and connects; a client only connects.
    pub open spec fn spec_listens(&self) -> bool {
        *self is Peer
    }

    /// Whether a process in this mode accepts connections.
    #[verifier::when_used_as_spec(spec_listens)]
    pub fn listens(&self) -> (listens: bool)
        ensures
            listens == self.spec_listens(),
    {
        match self {
            Mode::Peer => true,
            Mode::Client => false,
        }
    }

    /// The name of the mode, in lower case.
    pub fn name(&self) -> (name: &'static str)
        ensures
            mode_named(name@) == Some(*self),
    {
        proof {
            reveal_strlit("peer");
            reveal_strlit("client");
        }
        match self {
            Mode::Peer => "peer",
            Mode::Client => {
                assert("client"@.len() != "peer"@.len());
                "client"
            },
        }
    }
}

/// What a client of the transport is made from.
#[derive(Debug, Clone, PartialEq, Eq)]
pub struct ClientConfig {
    pub name: String,
    pub host: String,
    pub port: u16,
    /// The largest packet accepted, in either direction.
    pub max_packet_size: usize,
    /// The number of requests that may be queued.
    pub capacity: usize,
}

/// The configuration of the client `name` of the broker at `host` and
/// `port`, for payloads of up to `max_payload_size` bytes. A payload size
/// that leaves no room for the packet header is refused.
pub fn create_client(name: String, host: String, port: u16, max_payload_size: usize) -> (res:
    Result<ClientConfig, ConfigError>)
    ensures
        max_payload_size + PACKET_HEADER_SIZE > usize::MAX ==> res == Err::<
            ClientConfig,
            ConfigError,
        >(ConfigError::PayloadTooLarge),
        max_payload_size + PACKET_HEADER_SIZE <= usize::MAX ==> res is Ok && res->Ok_0.name@
            == name@ && res->Ok_0.host@ == host@ && res->Ok_0.port == port
            && res->Ok_0.max_packet_size == max_payload_size + PACKET_HEADER_SIZE
            && res->Ok_0.capacity == DEFAULT_CAP_SIZE,
{
    if max_payload_size > usize::MAX - PACKET_HEADER_SIZE {
        return Err(ConfigError::PayloadTooLarge);
    }
    Ok(
        ClientConfig {
            name,
            host,
            port,
            max_packet_size: max_payload_size + PACKET_HEADER_SIZE,
            capacity: DEFAULT_CAP_SIZE,
        },
    )
}

} // verus!
