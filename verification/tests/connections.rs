//! The connection table of one protocol.

use gossip_service::protocol::{PeerId, Protocol, QUEUE_SIZE_WARNING};
use gossip_service::table::ConnectionTable;

fn sorted(mut peers: Vec<PeerId>) -> Vec<PeerId> {
    peers.sort();
    peers
}

fn name() -> &'static str {
    Protocol::Authentication.queue_name()
}

#[test]
fn a_new_table_is_empty() {
    let table = ConnectionTable::<u32>::new();
    assert_eq!(table.len(), 0);
    assert_eq!(table.peers(), Vec::<PeerId>::new());
    assert!(table.get_sender(1).is_none());
}

#[test]
fn an_opened_peer_is_connected_and_has_a_queue() {
    let mut table = ConnectionTable::<u32>::new();
    let mut receiver = table.on_stream_opened(5, name(), QUEUE_SIZE_WARNING);
    assert_eq!(table.len(), 1);
    assert_eq!(table.peers(), vec![5]);
    let sender = table.get_sender(5).expect("the peer has a queue");
    sender.unbounded_send(17).expect("the queue takes the message");
    assert_eq!(receiver.try_recv().ok(), Some(17));
    assert!(table.get_sender(6).is_none());
}

#[test]
fn the_queue_carries_the_name_it_was_given() {
    let mut table = ConnectionTable::<u32>::new();
    let receiver = table.on_stream_opened(5, name(), QUEUE_SIZE_WARNING);
    assert_eq!(receiver.name(), "mpsc_notification_stream_authentication");
}

#[test]
fn peers_are_listed_once_each() {
    let mut table = ConnectionTable::<u32>::new();
    let mut receivers = Vec::new();
    for peer in [3u64, 1, 2, 3, 1] {
        receivers.push(table.on_stream_opened(peer, name(), QUEUE_SIZE_WARNING));
    }
    assert_eq!(table.len(), 3);
    assert_eq!(sorted(table.peers()), vec![1, 2, 3]);
}

#[test]
fn a_closed_peer_is_gone_and_its_queue_is_closed() {
    let mut table = ConnectionTable::<u32>::new();
    let mut first = table.on_stream_opened(1, name(), QUEUE_SIZE_WARNING);
    let mut second = table.on_stream_opened(2, name(), QUEUE_SIZE_WARNING);
    table.on_stream_closed(1);
    assert_eq!(table.len(), 1);
    assert_eq!(table.peers(), vec![2]);
    assert!(table.get_sender(1).is_none());
    assert!(first.try_recv().unwrap_err().is_closed());
    assert!(second.try_recv().unwrap_err().is_empty());
    assert!(table.get_sender(2).is_some());
}

#[test]
fn closing_an_unknown_peer_changes_nothing() {
    let mut table = ConnectionTable::<u32>::new();
    let _receiver = table.on_stream_opened(1, name(), QUEUE_SIZE_WARNING);
    table.on_stream_closed(9);
    assert_eq!(table.len(), 1);
    assert_eq!(table.peers(), vec![1]);
}

#[test]
fn opening_twice_replaces_the_queue() {
    let mut table = ConnectionTable::<u32>::new();
    let mut old = table.on_stream_opened(1, name(), QUEUE_SIZE_WARNING);
    let mut new = table.on_stream_opened(1, name(), QUEUE_SIZE_WARNING);
    assert_eq!(table.len(), 1);
    assert_eq!(table.peers(), vec![1]);
    table.get_sender(1).expect("the peer has a queue").unbounded_send(4).expect("taken");
    assert!(old.try_recv().unwrap_err().is_closed());
    assert_eq!(new.try_recv().ok(), Some(4));
}
