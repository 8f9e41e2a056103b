//! What the network reports to the service.

use crate::protocol::{PeerId, Protocol};
use vstd::prelude::*;
use vstd::std_specs::iter::IteratorSpec;

verus! {

/// One inbound frame, after the payload's codec has been run on its bytes.
#[derive(Debug, PartialEq, Eq)]
pub enum Frame<D> {
    /// The bytes were a well-formed message.
    Decoded(D),
    /// The bytes were not a message. Such a frame is skipped, never fatal.
    Malformed,
}

/// What happened on the network.
#[derive(Debug, PartialEq, Eq)]
pub enum Event<D> {
    /// A peer has become reachable on a protocol.
    StreamOpened(PeerId, Protocol),
    /// A peer is no longer reachable on a protocol.
    StreamClosed(PeerId, Protocol),
    /// A batch of inbound frames, in the order of their arrival.
    Messages(Vec<(Protocol, Frame<D>)>),
}

/// The messages that a batch of frames holds: the payload of every decoded
/// frame, in the order of the batch. Malformed frames contribute nothing.
pub open spec fn payloads<D>(frames: Seq<(Protocol, Frame<D>)>) -> Seq<D>
    decreases frames.len(),
{
    if frames.len() == 0 {
        Seq::empty()
    } else {
        let before = payloads(frames.drop_last());
        match frames.last().1 {
            Frame::Decoded(message) => before.push(message),
            Frame::Malformed => before,
        }
    }
}

/// Sifts a batch of frames: the payload of every decoded frame, in the order
/// of the batch. A malformed frame is skipped, and the frames after it are
/// still taken.
pub fn inbound_messages<D>(frames: Vec<(Protocol, Frame<D>)>) -> (messages: Vec<D>)
    ensures
        messages@ == payloads(frames@),
{
    let ghost batch = frames@;
    let mut messages: Vec<D> = Vec::new();
    for entry in iter: frames
        invariant
            iter.seq() == batch,
            messages@ == payloads(batch.take(iter.index())),
    {
        proof {
            assert(batch.take(iter.index() + 1).drop_last() == batch.take(iter.index()));
        }
        let (protocol, frame) = entry;
        match protocol {
            Protocol::Authentication => match frame {
                Frame::Decoded(message) => {
                    messages.push(message);
                },
                Frame::Malformed => {},
            },
        }
    }
    proof {
        assert(batch.take(batch.len() as int) == batch);
    }
    messages
}

/// The messages of two batches, one after the other, are the messages of
/// the first followed by the messages of the second.
pub proof fn lemma_payloads_of_joined_batches<D>(
    first: Seq<(Protocol, Frame<D>)>,
    second: Seq<(Protocol, Frame<D>)>,
)
    ensures
        payloads(first + second) == payloads(first) + payloads(second),
    decreases second.len(),
{
    if second.len() == 0 {
        assert(first + second == first);
        assert(payloads(first) + payloads(second) == payloads(first));
    } else {
        lemma_payloads_of_joined_batches(first, second.drop_last());
        assert((first + second).drop_last() == first + second.drop_last());
        assert((first + second).last() == second.last());
        match second.last().1 {
            Frame::Decoded(message) => {
                assert((payloads(first) + payloads(second.drop_last())).push(message) == payloads(
                    first,
                ) + payloads(second.drop_last()).push(message));
            },
            Frame::Malformed => {},
        }
    }
}

/// A malformed frame yields no message and takes none away: the frames
/// before it and after it yield what they would yield without it.
pub proof fn lemma_malformed_frame_is_skipped<D>(
    before: Seq<(Protocol, Frame<D>)>,
    protocol: Protocol,
    after: Seq<(Protocol, Frame<D>)>,
)
    ensures
        payloads(before.push((protocol, Frame::<D>::Malformed)) + after) == payloads(before)
            + payloads(after),
{
    let with_frame = before.push((protocol, Frame::<D>::Malformed));
    lemma_payloads_of_joined_batches(with_frame, after);
    assert(with_frame.drop_last() == before);
}

/// A decoded frame yields its payload, once, at its place among the messages
/// of the frames around it.
pub proof fn lemma_decoded_frame_is_taken<D>(
    before: Seq<(Protocol, Frame<D>)>,
    protocol: Protocol,
    message: D,
    after: Seq<(Protocol, Frame<D>)>,
)
    ensures
        payloads(before.push((protocol, Frame::Decoded(message))) + after) == payloads(
            before,
        ).push(message) + payloads(after),
{
    let with_frame = before.push((protocol, Frame::Decoded(message)));
    lemma_payloads_of_joined_batches(with_frame, after);
    assert(with_frame.drop_last() == before);
}

/// The connected peers of a protocol after an event, given those before it.
pub open spec fn peers_after<D>(peers: Set<PeerId>, protocol: Protocol, event: Event<D>) -> Set<
    PeerId,
> {
    match event {
        Event::StreamOpened(peer, on) => if on == protocol {
            peers.insert(peer)
        } else {
            peers
        },
        Event::StreamClosed(peer, on) => if on == protocol {
            peers.remove(peer)
        } else {
            peers
        },
        Event::Messages(_) => peers,
    }
}

} // verus!
