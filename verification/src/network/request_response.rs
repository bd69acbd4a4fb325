//! The settings of the request/response exchanges that carry the messages.

use vstd::prelude::*;

verus! {

/// The time, in seconds, after which a request that got no response counts
/// as failed.
pub const TIMEOUT: u64 = 60;

/// Which side of an exchange a party takes.
#[derive(Debug, Clone, Copy, PartialEq, Eq, Structural)]
pub enum ProtocolSupport {
    /// The party only receives requests.
    Inbound,
    /// The party only sends requests.
    Outbound,
    /// The party does both.
    Full,
}

/// How one exchange is set up.
#[derive(Debug, Clone, Copy, PartialEq, Eq, Structural)]
pub struct Config {
    pub request_timeout_secs: u64,
    pub support: ProtocolSupport,
}

} // verus!
