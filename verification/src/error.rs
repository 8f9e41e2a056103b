//! What can go wrong when data is handed to the service or to a peer.

use vstd::prelude::*;
use vstd::string::*;

verus! {

/// What can go wrong when receiving or sending data.
#[derive(Debug, Clone, Copy, PartialEq, Eq, Structural)]
pub enum Error {
    /// The other end of the channel between the application and the service is gone.
    ServiceStopped,
}

impl Error {
    /// The text that describes this error.
    pub open spec fn text(self) -> Seq<char> {
        match self {
            Error::ServiceStopped => "gossip network service stopped"@,
        }
    }

    /// What a hand-over to the channel between the application and the
    /// service amounts to: a message that the channel gave back found the
    /// other side stopped.
    pub fn classify<D>(outcome: Result<(), D>) -> (result: Result<(), Error>)
        ensures
            result == match outcome {
                Ok(_) => Ok::<(), Error>(()),
                Err(_) => Err::<(), Error>(Error::ServiceStopped),
            },
    {
        match outcome {
            Ok(_) => Ok(()),
            Err(_) => Err(Error::ServiceStopped),
        }
    }

    /// Renders the error as text for a person to read.
    pub fn to_string(&self) -> (text: String)
        ensures
            text@ == self.text(),
    {
        match self {
            Error::ServiceStopped => String::from_str("gossip network service stopped"),
        }
    }
}

/// Why a message did not reach a peer's send queue.
#[derive(Debug, Clone, Copy, PartialEq, Eq, Structural)]
pub enum SendError {
    /// The peer has no send queue: it is not connected.
    MissingSender,
    /// The peer's send queue did not take the message: the task that
    /// consumed it has ended.
    SendingFailed,
}

impl SendError {
    /// What an attempt on a peer's send queue amounts to: a message that
    /// the queue gave back was not sent.
    pub fn classify<D>(outcome: Result<(), D>) -> (result: Result<(), SendError>)
        ensures
            result == match outcome {
                Ok(_) => Ok::<(), SendError>(()),
                Err(_) => Err::<(), SendError>(SendError::SendingFailed),
            },
    {
        match outcome {
            Ok(_) => Ok(()),
            Err(_) => Err(SendError::SendingFailed),
        }
    }
}

} // verus!
