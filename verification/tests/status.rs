//! The status report and the numbers in it.

use gossip_service::driver::{Input, Output};
use gossip_service::event::Event;
use gossip_service::protocol::Protocol;
use gossip_service::service::Service;
use gossip_service::text::decimal;

const PROTOCOL: Protocol = Protocol::Authentication;

#[test]
fn numbers_are_written_in_decimal() {
    assert_eq!(decimal(0), "0");
    assert_eq!(decimal(7), "7");
    assert_eq!(decimal(9), "9");
    assert_eq!(decimal(10), "10");
    assert_eq!(decimal(99), "99");
    assert_eq!(decimal(100), "100");
    assert_eq!(decimal(1234567890), "1234567890");
    assert_eq!(decimal(usize::MAX), usize::MAX.to_string());
}

#[test]
fn the_report_of_an_empty_service() {
    let (service, _from_user, _interface) = Service::<u8>::new();
    assert_eq!(
        service.status_report(),
        "Network status report: authentication connected peers - 0; "
    );
}

#[test]
fn the_report_counts_connected_peers() {
    let (mut service, _from_user, _interface) = Service::<u8>::new();
    let mut receivers = Vec::new();
    for peer in 0..12u64 {
        receivers.push(service.handle_network_event(Event::StreamOpened(peer, PROTOCOL)));
    }
    receivers.push(service.handle_network_event(Event::StreamOpened(3, PROTOCOL)));
    assert_eq!(
        service.status_report(),
        "Network status report: authentication connected peers - 12; "
    );
    receivers.push(service.handle_network_event(Event::StreamClosed(3, PROTOCOL)));
    receivers.push(service.handle_network_event(Event::StreamClosed(4, PROTOCOL)));
    receivers.push(service.handle_network_event(Event::StreamClosed(4, PROTOCOL)));
    assert_eq!(
        service.status_report(),
        "Network status report: authentication connected peers - 10; "
    );
}

#[test]
fn the_timer_yields_the_report_and_changes_nothing() {
    let (mut service, _from_user, _interface) = Service::<u8>::new();
    let _opened = service.step(Input::Network(Some(Event::StreamOpened(8, PROTOCOL))));
    match service.step(Input::Tick) {
        Output::Status(status) => {
            assert_eq!(status, "Network status report: authentication connected peers - 1; ")
        }
        other => panic!("the report should be given, not {:?}", other),
    }
    assert_eq!(service.partition(PROTOCOL).peers(), vec![8]);
}
