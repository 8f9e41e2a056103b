//! The service's event loop, turn by turn.

use gossip_service::driver::{Input, Output, StopReason};
use gossip_service::error::SendError;
use gossip_service::event::{Event, Frame};
use gossip_service::protocol::Protocol;
use gossip_service::service::{Delivery, Dispatch, Service, Undelivered};

const PROTOCOL: Protocol = Protocol::Authentication;

#[test]
fn the_end_of_the_network_stream_ends_the_loop() {
    let (mut service, _from_user, _interface) = Service::<u8>::new();
    match service.step(Input::Network(None)) {
        Output::Stopped(reason) => assert_eq!(reason, StopReason::NetworkStreamEnded),
        other => panic!("the loop should end, not {:?}", other),
    }
}

#[test]
fn the_end_of_the_application_stream_ends_the_loop() {
    let (mut service, _from_user, _interface) = Service::<u8>::new();
    match service.step(Input::User(None)) {
        Output::Stopped(reason) => assert_eq!(reason, StopReason::UserStreamEnded),
        other => panic!("the loop should end, not {:?}", other),
    }
}

#[test]
fn an_application_that_takes_no_messages_ends_the_loop() {
    let (mut service, _from_user, interface) = Service::<u8>::new();
    drop(interface);
    let batch = vec![(PROTOCOL, Frame::Decoded(1u8)), (PROTOCOL, Frame::Decoded(2))];
    match service.step(Input::Network(Some(Event::Messages(batch)))) {
        Output::Stopped(reason) => assert_eq!(
            reason,
            StopReason::CannotForward(Undelivered { delivered: 0, message: 1 })
        ),
        other => panic!("the loop should end, not {:?}", other),
    }
}

#[test]
fn streams_and_batches_keep_the_loop_going() {
    let (mut service, _from_user, mut interface) = Service::<u8>::new();
    let receiver = match service.step(Input::Network(Some(Event::StreamOpened(5, PROTOCOL)))) {
        Output::Handled(Dispatch::SpawnPeerSender { peer: 5, protocol: PROTOCOL, receiver }) => {
            receiver
        }
        other => panic!("a task should be started, not {:?}", other),
    };
    assert!(matches!(
        service.step(Input::Network(Some(Event::Messages(vec![(PROTOCOL, Frame::Decoded(9))])))),
        Output::Handled(Dispatch::Done)
    ));
    assert_eq!(interface.messages_from_service.try_recv(), Ok(9));
    assert!(matches!(
        service.step(Input::Network(Some(Event::StreamClosed(5, PROTOCOL)))),
        Output::Handled(Dispatch::Done)
    ));
    drop(receiver);
}

#[test]
fn a_message_of_the_application_is_broadcast_on_authentication() {
    let (mut service, _from_user, _interface) = Service::<u8>::new();
    let mut kept = match service.step(Input::Network(Some(Event::StreamOpened(1, PROTOCOL)))) {
        Output::Handled(Dispatch::SpawnPeerSender { receiver, .. }) => receiver,
        other => panic!("a task should be started, not {:?}", other),
    };
    match service.step(Input::Network(Some(Event::StreamOpened(2, PROTOCOL)))) {
        Output::Handled(Dispatch::SpawnPeerSender { receiver, .. }) => drop(receiver),
        other => panic!("a task should be started, not {:?}", other),
    }
    match service.step(Input::User(Some(42))) {
        Output::Sent(mut report) => {
            report.sort_by_key(|delivery| delivery.peer);
            assert_eq!(
                report,
                vec![
                    Delivery { peer: 1, outcome: Ok(()) },
                    Delivery { peer: 2, outcome: Err(SendError::SendingFailed) },
                ]
            );
        }
        other => panic!("the message should be broadcast, not {:?}", other),
    }
    assert_eq!(kept.try_recv().ok(), Some(42));
}
