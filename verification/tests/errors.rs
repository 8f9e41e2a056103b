//! The two kinds of failure and what they say.

use gossip_service::error::{Error, SendError};

#[test]
fn service_stopped_has_its_text() {
    assert_eq!(Error::ServiceStopped.to_string(), "gossip network service stopped");
}

#[test]
fn a_message_that_came_back_means_the_service_stopped() {
    assert_eq!(Error::classify::<u8>(Ok(())), Ok(()));
    assert_eq!(Error::classify(Err(5u8)), Err(Error::ServiceStopped));
}

#[test]
fn a_message_that_came_back_was_not_sent() {
    assert_eq!(SendError::classify::<u8>(Ok(())), Ok(()));
    assert_eq!(SendError::classify(Err(5u8)), Err(SendError::SendingFailed));
}

#[test]
fn the_two_send_errors_differ() {
    assert_ne!(SendError::MissingSender, SendError::SendingFailed);
    assert_eq!(format!("{:?}", SendError::MissingSender), "MissingSender");
    assert_eq!(format!("{:?}", SendError::SendingFailed), "SendingFailed");
    assert_eq!(format!("{:?}", Error::ServiceStopped), "ServiceStopped");
}
