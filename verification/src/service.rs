//! The service: one connection table per protocol and the channel to the
//! application, with the handling of everything the network reports and of
//! every message the application wants sent.

use crate::channel::{application_channel, enqueue, hand_over};
use crate::error::SendError;
use crate::event::{inbound_messages, payloads, peers_after, Event};
use crate::interface::ServiceInterface;
use crate::protocol::{PeerId, Protocol, QUEUE_SIZE_WARNING};
use crate::table::ConnectionTable;
use crate::text::{decimal, decimal_text};
use futures::channel::mpsc::{UnboundedReceiver, UnboundedSender};
use sc_utils::mpsc::{TracingUnboundedReceiver, TracingUnboundedSender};
use vstd::prelude::*;
use vstd::string::*;

verus! {

/// What remains to be done outside the service once an event is handled.
#[derive(Debug)]
#[verifier::reject_recursive_types(D)]
pub enum Dispatch<D> {
    /// A peer was connected. A task must be started that consumes
    /// `receiver` and sends what it yields to `peer` on `protocol`.
    SpawnPeerSender { peer: PeerId, protocol: Protocol, receiver: TracingUnboundedReceiver<D> },
    /// Nothing is left to do.
    Done,
}

/// A decoded message that the application's channel did not take, because
/// the application has dropped the other end.
#[derive(Debug, PartialEq, Eq)]
pub struct Undelivered<D> {
    /// How many messages of the same batch the channel took before this one.
    pub delivered: usize,
    /// The message that was not taken.
    pub message: D,
}

/// What became of a broadcast message for one peer.
#[derive(Debug, Clone, Copy, PartialEq, Eq)]
pub struct Delivery {
    /// The peer whose send queue the message was offered to.
    pub peer: PeerId,
    /// Whether the queue took it.
    pub outcome: Result<(), SendError>,
}

/// The peers of a broadcast's report, in the order of the report.
pub open spec fn recipients(report: Seq<Delivery>) -> Seq<PeerId> {
    report.map_values(|delivery: Delivery| delivery.peer)
}

/// The outcome of a message that was offered to a send queue: the queue
/// took it, or the queue's consumer has ended. It is never that of a peer
/// without a queue.
pub open spec fn offered(outcome: Result<(), SendError>) -> bool {
    outcome is Ok || outcome == Err::<(), SendError>(SendError::SendingFailed)
}

/// The text of the status report for a number of connected peers.
pub open spec fn status_text(authentication_peers: nat) -> Seq<char> {
    "Network status report: authentication connected peers - "@ + decimal_text(
        authentication_peers,
    ) + "; "@
}

/// A service managing all the direct interaction with the underlying
/// network. It keeps track of the peers that are connected, hands inbound
/// messages to the application and sends outbound ones to every
/// connected peer.
#[verifier::reject_recursive_types(D)]
pub struct Service<D> {
    messages_for_user: UnboundedSender<D>,
    authentication: ConnectionTable<D>,
    forwarded: Ghost<Seq<D>>,
}

impl<D> Service<D> {
    /// The connection table that belongs to a protocol.
    pub closed spec fn table(&self, protocol: Protocol) -> ConnectionTable<D> {
        match protocol {
            Protocol::Authentication => self.authentication,
        }
    }

    /// The peers that are connected on a protocol.
    pub open spec fn connected(&self, protocol: Protocol) -> Set<PeerId> {
        self.table(protocol).connected()
    }

    /// The send queue of each peer that is connected on a protocol.
    pub open spec fn queues(&self, protocol: Protocol) -> Map<PeerId, TracingUnboundedSender<D>> {
        self.table(protocol).queues()
    }

    /// The producing end of the channel that carries inbound messages to
    /// the application.
    pub closed spec fn application(&self) -> UnboundedSender<D> {
        self.messages_for_user
    }

    /// The inbound messages that the channel to the application has taken
    /// from this service so far, the first of them first.
    pub closed spec fn forwarded(&self) -> Seq<D> {
        self.forwarded@
    }

    /// On each protocol a peer is connected exactly if it has a send queue.
    pub open spec fn wf(&self) -> bool {
        self.table(Protocol::Authentication).wf()
    }

    /// What handling `event` makes of the service `before`: the service
    /// after it and the result that is returned.
    pub open spec fn handles(
        before: Self,
        event: Event<D>,
        after: Self,
        result: Result<Dispatch<D>, Undelivered<D>>,
    ) -> bool {
        &&& after.wf()
        &&& after.application() == before.application()
        &&& forall|protocol: Protocol|
            #[trigger] after.connected(protocol) == peers_after(
                before.connected(protocol),
                protocol,
                event,
            )
        &&& match event {
            Event::StreamOpened(peer, protocol) => {
                &&& result matches Ok(Dispatch::SpawnPeerSender { peer: to, protocol: on, .. })
                &&& to == peer
                &&& on == protocol
                &&& after.queues(protocol).remove(peer) == before.queues(protocol).remove(peer)
                &&& after.forwarded() == before.forwarded()
            },
            Event::StreamClosed(peer, protocol) => {
                &&& result matches Ok(Dispatch::Done)
                &&& after.queues(protocol) == before.queues(protocol).remove(peer)
                &&& after.forwarded() == before.forwarded()
            },
            Event::Messages(frames) => {
                &&& forall|protocol: Protocol|
                    #[trigger] after.table(protocol) == before.table(protocol)
                &&& result matches Ok(dispatch) ==> dispatch is Done
                &&& Self::forwards(
                    before.forwarded(),
                    payloads(frames@),
                    after.forwarded(),
                    result,
                )
            },
        }
    }

    /// What forwarding `messages` makes of what the channel to the
    /// application had taken `before`. Without a refusal the channel has
    /// taken them all, in their order. With one it has taken those before
    /// the refused message and none after it, and the refused message comes
    /// back with the number of those taken before it.
    pub open spec fn forwards<T>(
        before: Seq<D>,
        messages: Seq<D>,
        after: Seq<D>,
        result: Result<T, Undelivered<D>>,
    ) -> bool {
        match result {
            Ok(_) => after == before + messages,
            Err(undelivered) => {
                &&& undelivered.delivered < messages.len()
                &&& undelivered.message == messages[undelivered.delivered as int]
                &&& after == before + messages.take(undelivered.delivered as int)
            },
        }
    }

    /// What a broadcast on `protocol` reports: every connected peer once,
    /// no other peer, and of each that the message was offered to its send
    /// queue.
    pub open spec fn broadcasts(&self, protocol: Protocol, report: Seq<Delivery>) -> bool {
        &&& recipients(report).no_duplicates()
        &&& recipients(report).to_set() == self.connected(protocol)
        &&& forall|i: int|
            0 <= i < report.len() ==> offered((#[trigger] report[i]).outcome)
    }

    /// A service with no peer connected, together with the two ends that
    /// face it: the receiver of the messages that the application wants
    /// sent, which the service's driver consumes, and the interface that is
    /// handed to the application.
    pub fn new() -> (parts: (Service<D>, UnboundedReceiver<D>, ServiceInterface<D>))
        ensures
            parts.0.wf(),
            forall|protocol: Protocol| #[trigger]
                parts.0.connected(protocol) == Set::<PeerId>::empty(),
            forall|protocol: Protocol| #[trigger]
                parts.0.queues(protocol) == Map::<PeerId, TracingUnboundedSender<D>>::empty(),
            parts.0.forwarded() == Seq::<D>::empty(),
            parts.2.submitted() == Seq::<D>::empty(),
    {
        let (messages_for_user, messages_from_service) = application_channel::<D>();
        let (messages_for_service, messages_from_user) = application_channel::<D>();
        (
            Service {
                messages_for_user,
                authentication: ConnectionTable::new(),
                forwarded: Ghost(Seq::empty()),
            },
            messages_from_user,
            ServiceInterface::new(messages_from_service, messages_for_service),
        )
    }

    /// The connection table that belongs to a protocol.
    pub fn partition(&self, protocol: Protocol) -> (table: &ConnectionTable<D>)
        ensures
            *table == self.table(protocol),
    {
        match protocol {
            Protocol::Authentication => &self.authentication,
        }
    }

    /// The producing end of a peer's send queue on a protocol, if the peer
    /// is connected on it.
    pub fn get_sender(&self, peer: PeerId, protocol: Protocol) -> (sender: Option<
        &TracingUnboundedSender<D>,
    >)
        ensures
            sender is Some <==> self.queues(protocol).contains_key(peer),
            sender matches Some(queue) ==> *queue == self.queues(protocol)[peer],
    {
        self.partition(protocol).get_sender(peer)
    }

    /// Puts a message into a peer's send queue on a protocol. A peer that is
    /// not connected has no queue: `MissingSender`. A queue that does not
    /// take the message has lost its consumer: `SendingFailed`; the peer
    /// stays in the table, from which only a closed stream removes it.
    pub fn send_to_peer(&self, data: D, peer: PeerId, protocol: Protocol) -> (result: Result<
        (),
        SendError,
    >)
        ensures
            !self.queues(protocol).contains_key(peer) ==> result == Err::<(), SendError>(
                SendError::MissingSender,
            ),
            self.queues(protocol).contains_key(peer) ==> offered(result),
    {
        match self.get_sender(peer, protocol) {
            Some(sender) => SendError::classify(enqueue(sender, data)),
            None => Err(SendError::MissingSender),
        }
    }

    /// Hands decoded messages to the application, in order, and stops at
    /// the first that its channel does not take: that message comes back,
    /// with the number of messages that were taken before it. The messages
    /// that were taken join those that the channel has taken before; the
    /// connections and the channel itself stay as they are.
    pub fn forward_to_user(&mut self, messages: Vec<D>) -> (result: Result<(), Undelivered<D>>)
        ensures
            final(self).application() == old(self).application(),
            forall|protocol: Protocol|
                #[trigger] final(self).table(protocol) == old(self).table(protocol),
            Self::forwards(old(self).forwarded(), messages@, final(self).forwarded(), result),
    {
        let ghost batch = messages@;
        assert(batch.len() == messages.len());
        let mut delivered: usize = 0;
        for message in iter: messages
            invariant
                iter.seq() == batch,
                batch.len() <= usize::MAX,
                delivered == iter.index(),
                self.messages_for_user == old(self).messages_for_user,
                self.authentication == old(self).authentication,
                self.forwarded@ == old(self).forwarded@ + batch.take(iter.index()),
        {
            let ghost offered = message;
            match hand_over(&self.messages_for_user, message) {
                Ok(()) => {
                    self.forwarded = Ghost(self.forwarded@.push(offered));
                    delivered = delivered + 1;
                    assert(batch.take(delivered as int) == batch.take(delivered - 1).push(
                        offered,
                    ));
                },
                Err(message) => {
                    return Err(Undelivered { delivered, message });
                },
            }
        }
        assert(batch.take(batch.len() as int) == batch);
        Ok(())
    }

    /// Handles one event of the network.
    ///
    /// An opened stream connects the peer on the stream's protocol and
    /// gives it a fresh send queue, whose consuming end is returned for the
    /// task that will send to the peer. A closed stream forgets the peer and
    /// its queue. A batch of frames is handed to the application message by
    /// message, in order, skipping malformed frames; the connection tables
    /// stay as they are. The only failure is a message that the channel to
    /// the application did not take: it comes back, with the number of
    /// messages of the batch that were taken before it.
    pub fn handle_network_event(&mut self, event: Event<D>) -> (result: Result<
        Dispatch<D>,
        Undelivered<D>,
    >)
        requires
            old(self).wf(),
        ensures
            Self::handles(*old(self), event, *final(self), result),
    {
        match event {
            Event::StreamOpened(peer, protocol) => {
                let receiver = match protocol {
                    Protocol::Authentication => self.authentication.on_stream_opened(
                        peer,
                        protocol.queue_name(),
                        QUEUE_SIZE_WARNING,
                    ),
                };
                Ok(Dispatch::SpawnPeerSender { peer, protocol, receiver })
            },
            Event::StreamClosed(peer, protocol) => {
                match protocol {
                    Protocol::Authentication => self.authentication.on_stream_closed(peer),
                }
                Ok(Dispatch::Done)
            },
            Event::Messages(frames) => {
                match self.forward_to_user(inbound_messages(frames)) {
                    Ok(()) => Ok(Dispatch::Done),
                    Err(undelivered) => Err(undelivered),
                }
            },
        }
    }

    /// The status of the network: how many peers are connected on each
    /// protocol.
    pub fn status_report(&self) -> (status: String)
        ensures
            status@ == status_text(self.connected(Protocol::Authentication).len()),
    {
        let mut status = String::from_str("Network status report: ");
        status.append("authentication connected peers - ");
        let count = decimal(self.authentication.len());
        status.append(count.as_str());
        status.append("; ");
        proof {
            reveal_strlit("Network status report: ");
            reveal_strlit("authentication connected peers - ");
            reveal_strlit("Network status report: authentication connected peers - ");
            assert("Network status report: "@ + "authentication connected peers - "@
                == "Network status report: authentication connected peers - "@);
        }
        status
    }
}

impl<D: Clone> Service<D> {
    /// Sends a message to every peer that is connected on a protocol, by
    /// putting a copy into the send queue of each. A queue that does not
    /// take its copy does not keep the others from getting theirs. The
    /// report says for each peer what became of its copy.
    pub fn broadcast(&self, data: D, protocol: Protocol) -> (report: Vec<Delivery>)
        requires
            self.wf(),
        ensures
            self.broadcasts(protocol, report@),
    {
        let peers = self.partition(protocol).peers();
        let mut report: Vec<Delivery> = Vec::new();
        let mut next: usize = 0;
        while next < peers.len()
            invariant
                self.wf(),
                next <= peers.len(),
                peers@.to_set() == self.connected(protocol),
                recipients(report@) == peers@.take(next as int),
                forall|i: int| 0 <= i < report.len() ==> offered((#[trigger] report[i]).outcome),
            decreases peers.len() - next,
        {
            let peer = peers[next];
            assert(peers@.to_set().contains(peer));
            let outcome = self.send_to_peer(data.clone(), peer, protocol);
            let ghost before = report@;
            report.push(Delivery { peer, outcome });
            next = next + 1;
            proof {
                assert(recipients(report@) == recipients(before).push(peer));
                assert(peers@.take(next as int) == peers@.take(next - 1).push(peer));
            }
        }
        proof {
            assert(peers@.take(peers.len() as int) == peers@);
        }
        report
    }
}

} // verus!
