//! The logical channels that share one connection to a peer, and the name
//! by which a peer is known.

use vstd::prelude::*;
use vstd::string::*;

verus! {

/// A remote participant. The service never looks inside the identifier: it
/// only compares two of them and keeps them in its tables.
pub type PeerId = u64;

/// A logical channel to a peer. Every connection, queue and message belongs
/// to exactly one protocol.
#[derive(Clone, Copy, Debug, PartialEq, Eq, Hash, Structural)]
pub enum Protocol {
    /// The channel on which peers authenticate to each other.
    Authentication,
}

/// The queue length from which a peer's send queue reports that its
/// consumer has fallen behind. The queue itself has no bound.
pub const QUEUE_SIZE_WARNING: usize = 100_000;

impl Protocol {
    /// The name under which the send queues of this protocol are known.
    pub open spec fn spec_queue_name(self) -> Seq<char> {
        match self {
            Protocol::Authentication => "mpsc_notification_stream_authentication"@,
        }
    }

    /// The name under which the send queues of this protocol are known.
    pub fn queue_name(self) -> (name: &'static str)
        ensures
            name@ == self.spec_queue_name(),
    {
        match self {
            Protocol::Authentication => "mpsc_notification_stream_authentication",
        }
    }
}

} // verus!
