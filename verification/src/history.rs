//! What a history of network events makes of the connected peers, and whom
//! a broadcast reaches after it.

use crate::driver::{Input, Output};
use crate::event::{peers_after, Event};
use crate::protocol::{PeerId, Protocol};
use crate::service::{recipients, Delivery, Service};
use vstd::prelude::*;

verus! {

/// The connected peers of a protocol after a sequence of events, given those
/// before it.
pub open spec fn peers_after_all<D>(
    peers: Set<PeerId>,
    protocol: Protocol,
    events: Seq<Event<D>>,
) -> Set<PeerId>
    decreases events.len(),
{
    if events.len() == 0 {
        peers
    } else {
        peers_after(peers_after_all(peers, protocol, events.drop_last()), protocol, events.last())
    }
}

/// A peer leaves the connected peers of a protocol through nothing but the
/// closing of its stream on that protocol, and joins them through nothing
/// but the opening of it. No batch of frames and no other peer's stream
/// connects or disconnects it.
pub proof fn lemma_only_its_stream_moves_a_peer<D>(
    before: Set<PeerId>,
    protocol: Protocol,
    event: Event<D>,
    peer: PeerId,
)
    ensures
        before.contains(peer) && !peers_after(before, protocol, event).contains(peer) ==> event
            == Event::<D>::StreamClosed(peer, protocol),
        !before.contains(peer) && peers_after(before, protocol, event).contains(peer) ==> event
            == Event::<D>::StreamOpened(peer, protocol),
{
}

/// The events that open a stream on `protocol` for each of `peers`, in order.
pub open spec fn openings<D>(peers: Seq<PeerId>, protocol: Protocol) -> Seq<Event<D>> {
    peers.map_values(|peer: PeerId| Event::<D>::StreamOpened(peer, protocol))
}

/// The events that close the stream on `protocol` of each of `peers`, in
/// order.
pub open spec fn closings<D>(peers: Seq<PeerId>, protocol: Protocol) -> Seq<Event<D>> {
    peers.map_values(|peer: PeerId| Event::<D>::StreamClosed(peer, protocol))
}

/// What a history says of one peer: it is connected after the history if
/// one of its events opened the peer's stream and none after that closed
/// it, or if the peer was connected before and none of its events closed
/// the peer's stream.
pub open spec fn connected_by<D>(
    before: Set<PeerId>,
    protocol: Protocol,
    events: Seq<Event<D>>,
    peer: PeerId,
) -> bool {
    ||| exists|i: int|
        0 <= i < events.len() && #[trigger] events[i] == Event::<D>::StreamOpened(peer, protocol)
            && forall|j: int|
            i < j < events.len() ==> #[trigger] events[j] != Event::<D>::StreamClosed(
                peer,
                protocol,
            )
    ||| before.contains(peer) && forall|j: int|
        0 <= j < events.len() ==> #[trigger] events[j] != Event::<D>::StreamClosed(peer, protocol)
}

/// Whatever the history, a peer is connected after it exactly if the last
/// event about its stream opened it, or, where no event is about its
/// stream, if it was connected before. Batches of frames, and events about
/// other peers or other protocols, change nothing for it.
pub proof fn lemma_history_decides<D>(
    before: Set<PeerId>,
    protocol: Protocol,
    events: Seq<Event<D>>,
    peer: PeerId,
)
    ensures
        peers_after_all(before, protocol, events).contains(peer) <==> connected_by(
            before,
            protocol,
            events,
            peer,
        ),
    decreases events.len(),
{
    if events.len() > 0 {
        let earlier = events.drop_last();
        let n = earlier.len() as int;
        let opened = Event::<D>::StreamOpened(peer, protocol);
        let closed = Event::<D>::StreamClosed(peer, protocol);
        lemma_history_decides(before, protocol, earlier, peer);
        assert forall|j: int| 0 <= j < n implies earlier[j] == events[j] by {}
        if events.last() == opened {
            // The last event opens the stream, and nothing comes after it.
            assert(events[n] == opened);
        } else if events.last() == closed {
            // The last event closes the stream, after whatever opened it.
            assert(events[n] == closed);
        } else {
            // The last event is about someone else: what decided among the
            // earlier events decides still.
            if connected_by(before, protocol, earlier, peer) {
                if !(before.contains(peer) && forall|j: int|
                    0 <= j < n ==> #[trigger] earlier[j] != closed) {
                    let i = choose|i: int|
                        0 <= i < n && #[trigger] earlier[i] == opened && forall|j: int|
                            i < j < n ==> #[trigger] earlier[j] != closed;
                    assert(events[i] == opened);
                }
                assert(connected_by(before, protocol, events, peer));
            }
            if connected_by(before, protocol, events, peer) {
                if !(before.contains(peer) && forall|j: int|
                    0 <= j < events.len() ==> #[trigger] events[j] != closed) {
                    let i = choose|i: int|
                        0 <= i < events.len() && #[trigger] events[i] == opened && forall|j: int|
                            i < j < events.len() ==> #[trigger] events[j] != closed;
                    assert(earlier[i] == opened);
                }
                assert(connected_by(before, protocol, earlier, peer));
            }
        }
    }
}

/// Opening streams adds exactly the peers of those streams to the connected
/// peers, however often and in whatever order they are named.
pub proof fn lemma_openings_connect<D>(before: Set<PeerId>, protocol: Protocol, peers: Seq<PeerId>)
    ensures
        peers_after_all(before, protocol, openings::<D>(peers, protocol)) == before.union(
            peers.to_set(),
        ),
    decreases peers.len(),
{
    let events = openings::<D>(peers, protocol);
    if peers.len() == 0 {
        assert(before.union(peers.to_set()) == before);
    } else {
        lemma_openings_connect::<D>(before, protocol, peers.drop_last());
        assert(events.drop_last() == openings::<D>(peers.drop_last(), protocol));
        assert(peers.to_set() == peers.drop_last().to_set().insert(peers.last())) by {
            lemma_to_set_of_push(peers.drop_last(), peers.last());
            assert(peers.drop_last().push(peers.last()) == peers);
        }
        assert(before.union(peers.drop_last().to_set()).insert(peers.last()) == before.union(
            peers.to_set(),
        ));
    }
}

/// Closing streams removes exactly the peers of those streams from the
/// connected peers, and leaves every other peer connected.
pub proof fn lemma_closings_disconnect<D>(
    before: Set<PeerId>,
    protocol: Protocol,
    peers: Seq<PeerId>,
)
    ensures
        peers_after_all(before, protocol, closings::<D>(peers, protocol)) == before.difference(
            peers.to_set(),
        ),
    decreases peers.len(),
{
    let events = closings::<D>(peers, protocol);
    if peers.len() == 0 {
        assert(before.difference(peers.to_set()) == before);
    } else {
        lemma_closings_disconnect::<D>(before, protocol, peers.drop_last());
        assert(events.drop_last() == closings::<D>(peers.drop_last(), protocol));
        assert(peers.to_set() == peers.drop_last().to_set().insert(peers.last())) by {
            lemma_to_set_of_push(peers.drop_last(), peers.last());
            assert(peers.drop_last().push(peers.last()) == peers);
        }
        assert(before.difference(peers.drop_last().to_set()).remove(peers.last())
            == before.difference(peers.to_set()));
    }
}

/// The elements of a sequence with one more at its end.
proof fn lemma_to_set_of_push(items: Seq<PeerId>, last: PeerId)
    ensures
        items.push(last).to_set() == items.to_set().insert(last),
{
    let longer = items.push(last);
    assert forall|peer: PeerId| longer.to_set().contains(peer) <==> items.to_set().insert(
        last,
    ).contains(peer) by {
        if longer.to_set().contains(peer) {
            let i = choose|i: int| 0 <= i < longer.len() && longer[i] == peer;
            if i < items.len() {
                assert(items[i] == peer);
            }
        }
        if items.to_set().contains(peer) {
            let i = choose|i: int| 0 <= i < items.len() && items[i] == peer;
            assert(longer[i] == peer);
        }
        if peer == last {
            assert(longer[items.len() as int] == peer);
        }
    }
}

/// The network events among the inputs of the event loop, in order.
pub open spec fn network_events<D>(inputs: Seq<Input<D>>) -> Seq<Event<D>>
    decreases inputs.len(),
{
    if inputs.len() == 0 {
        Seq::empty()
    } else {
        let before = network_events(inputs.drop_last());
        match inputs.last() {
            Input::Network(Some(event)) => before.push(event),
            _ => before,
        }
    }
}

/// A run of the event loop: the service before each turn and after the
/// last, the input of each turn and what the turn left to do.
pub open spec fn is_run<D: Clone>(
    states: Seq<Service<D>>,
    inputs: Seq<Input<D>>,
    outputs: Seq<Output<D>>,
) -> bool {
    &&& states.len() == inputs.len() + 1
    &&& outputs.len() == inputs.len()
    &&& states[0].wf()
    &&& forall|turn: int|
        0 <= turn < inputs.len() ==> #[trigger] Service::steps(
            states[turn],
            inputs[turn],
            states[turn + 1],
            outputs[turn],
        )
}

/// Throughout a run of the event loop the connection tables stay well
/// formed, and the peers that are connected after it are those that the
/// network's events of the run make of the peers connected before it. The
/// application's messages and the timer connect and disconnect no one.
pub proof fn lemma_run_follows_history<D: Clone>(
    states: Seq<Service<D>>,
    inputs: Seq<Input<D>>,
    outputs: Seq<Output<D>>,
    protocol: Protocol,
)
    requires
        is_run(states, inputs, outputs),
    ensures
        states.last().wf(),
        states.last().connected(protocol) == peers_after_all(
            states[0].connected(protocol),
            protocol,
            network_events(inputs),
        ),
    decreases inputs.len(),
{
    if inputs.len() > 0 {
        let n = inputs.len() as int;
        let earlier = inputs.drop_last();
        assert forall|turn: int| 0 <= turn < earlier.len() implies #[trigger] Service::steps(
            states.drop_last()[turn],
            earlier[turn],
            states.drop_last()[turn + 1],
            outputs.drop_last()[turn],
        ) by {
            assert(Service::steps(states[turn], inputs[turn], states[turn + 1], outputs[turn]));
        }
        lemma_run_follows_history(states.drop_last(), earlier, outputs.drop_last(), protocol);
        assert(states.drop_last().last() == states[n - 1]);
        assert(Service::steps(states[n - 1], inputs[n - 1], states[n], outputs[n - 1]));
        match inputs.last() {
            Input::Network(Some(event)) => {
                assert(network_events(inputs).drop_last() == network_events(earlier));
            },
            _ => {},
        }
    }
}

/// A broadcast that follows the opening of streams, from a service that had
/// no peer, reaches every peer of those streams, each once, and no one else.
pub proof fn lemma_broadcast_reaches_opened_peers<D>(
    service: Service<D>,
    protocol: Protocol,
    opened: Seq<PeerId>,
    report: Seq<Delivery>,
)
    requires
        service.connected(protocol) == peers_after_all(
            Set::<PeerId>::empty(),
            protocol,
            openings::<D>(opened, protocol),
        ),
        service.broadcasts(protocol, report),
    ensures
        recipients(report).no_duplicates(),
        recipients(report).to_set() == opened.to_set(),
        forall|peer: PeerId| opened.contains(peer) <==> recipients(report).contains(peer),
{
    lemma_openings_connect::<D>(Set::<PeerId>::empty(), protocol, opened);
    assert(Set::<PeerId>::empty().union(opened.to_set()) == opened.to_set());
    assert forall|peer: PeerId| opened.contains(peer) <==> recipients(report).contains(peer) by {
        assert(opened.contains(peer) <==> opened.to_set().contains(peer));
        assert(recipients(report).contains(peer) <==> recipients(report).to_set().contains(peer));
    }
}

/// A broadcast that follows the closing of streams reaches none of the
/// peers of those streams, and still reaches every peer that was connected
/// before and whose stream was not closed.
pub proof fn lemma_broadcast_skips_closed_peers<D>(
    service: Service<D>,
    protocol: Protocol,
    before: Set<PeerId>,
    closed: Seq<PeerId>,
    report: Seq<Delivery>,
)
    requires
        service.connected(protocol) == peers_after_all(
            before,
            protocol,
            closings::<D>(closed, protocol),
        ),
        service.broadcasts(protocol, report),
    ensures
        forall|peer: PeerId| closed.contains(peer) ==> !recipients(report).contains(peer),
        forall|peer: PeerId|
            before.contains(peer) && !closed.contains(peer) ==> recipients(report).contains(peer),
        recipients(report).to_set() == before.difference(closed.to_set()),
{
    lemma_closings_disconnect::<D>(before, protocol, closed);
    assert forall|peer: PeerId| closed.contains(peer) implies !recipients(report).contains(
        peer,
    ) by {
        assert(closed.to_set().contains(peer));
        assert(recipients(report).contains(peer) <==> recipients(report).to_set().contains(peer));
    }
    assert forall|peer: PeerId|
        before.contains(peer) && !closed.contains(peer) implies recipients(report).contains(
        peer,
    ) by {
        assert(!closed.to_set().contains(peer));
        assert(recipients(report).to_set().contains(peer));
    }
}

} // verus!
