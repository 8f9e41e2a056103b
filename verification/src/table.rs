//! The connection table of one protocol: who is connected, and the send
//! queue of each of them.

use crate::channel::peer_queue;
use crate::protocol::PeerId;
use sc_utils::mpsc::{TracingUnboundedReceiver, TracingUnboundedSender};
use std::collections::{HashMap, HashSet};
use vstd::prelude::*;
use vstd::std_specs::iter::IteratorSpec;

verus! {

broadcast use vstd::std_specs::hash::group_hash_axioms;

/// The peers that are connected on one protocol, each with the producing
/// end of its send queue.
#[verifier::reject_recursive_types(D)]
pub struct ConnectionTable<D> {
    connected_peers: HashSet<PeerId>,
    peer_senders: HashMap<PeerId, TracingUnboundedSender<D>>,
}

impl<D> ConnectionTable<D> {
    /// The peers that are recorded as connected.
    pub closed spec fn connected(&self) -> Set<PeerId> {
        self.connected_peers@
    }

    /// The send queue of each peer that has one.
    pub closed spec fn queues(&self) -> Map<PeerId, TracingUnboundedSender<D>> {
        self.peer_senders@
    }

    /// A peer is connected exactly if it has a send queue.
    pub open spec fn wf(&self) -> bool {
        &&& self.connected().finite()
        &&& self.connected() == self.queues().dom()
    }

    /// A table with no peer in it.
    pub fn new() -> (table: Self)
        ensures
            table.wf(),
            table.connected() == Set::<PeerId>::empty(),
            table.queues() == Map::<PeerId, TracingUnboundedSender<D>>::empty(),
    {
        ConnectionTable { connected_peers: HashSet::new(), peer_senders: HashMap::new() }
    }

    /// Records a peer as connected and gives it a fresh send queue, named
    /// `queue_name`. The consuming end of that queue is returned: it belongs
    /// to the task that will send to the peer. A queue that the peer had
    /// before is replaced, which ends the task that consumed it.
    pub fn on_stream_opened(
        &mut self,
        peer: PeerId,
        queue_name: &'static str,
        warn_at: usize,
    ) -> (receiver: TracingUnboundedReceiver<D>)
        requires
            old(self).wf(),
        ensures
            final(self).wf(),
            final(self).connected() == old(self).connected().insert(peer),
            final(self).queues().remove(peer) == old(self).queues().remove(peer),
    {
        let (sender, receiver) = peer_queue::<D>(queue_name, warn_at);
        self.connected_peers.insert(peer);
        self.peer_senders.insert(peer, sender);
        receiver
    }

    /// Forgets a peer and drops the producing end of its send queue, which
    /// ends the task that consumed it. Other peers are not touched.
    pub fn on_stream_closed(&mut self, peer: PeerId)
        requires
            old(self).wf(),
        ensures
            final(self).wf(),
            final(self).connected() == old(self).connected().remove(peer),
            final(self).queues() == old(self).queues().remove(peer),
    {
        self.connected_peers.remove(&peer);
        self.peer_senders.remove(&peer);
    }

    /// The producing end of a peer's send queue, if the peer is connected.
    pub fn get_sender(&self, peer: PeerId) -> (sender: Option<&TracingUnboundedSender<D>>)
        ensures
            sender is Some <==> self.queues().contains_key(peer),
            sender matches Some(queue) ==> *queue == self.queues()[peer],
    {
        self.peer_senders.get(&peer)
    }

    /// How many peers are connected.
    pub fn len(&self) -> (count: usize)
        ensures
            count == self.connected().len(),
    {
        self.connected_peers.len()
    }

    /// The connected peers at this moment, each once, in no particular order.
    pub fn peers(&self) -> (list: Vec<PeerId>)
        ensures
            list@.no_duplicates(),
            list@.to_set() == self.connected(),
    {
        let mut list: Vec<PeerId> = Vec::new();
        let ghost all: Seq<&PeerId> = self.connected_peers.iter().remaining();
        for peer in iter: self.connected_peers.iter()
            invariant
                iter.seq() == all,
                list@ == all.take(iter.index() as int).unref(),
        {
            list.push(*peer);
        }
        proof {
            assert(list@ == all.unref());
            assert forall|i: int, j: int|
                0 <= i < list@.len() && 0 <= j < list@.len() && i != j implies list@[i]
                != list@[j] by {
                assert(all[i] != all[j]);
            }
        }
        list
    }
}

} // verus!
