//! The task that sends to one peer on one protocol, as a state machine.
//!
//! The task consumes the peer's send queue. It is in one of two states: it
//! holds a sender to the peer, or it holds none. It asks the network for a
//! sender only when a message needs one, keeps a sender that has sent, and
//! gives up one that has failed. The machine decides; whoever drives it
//! waits on the queue, asks the network and performs the send, and reports
//! each outcome back. While a send is under way the sender travels with
//! the action and comes back with the outcome.

use crate::protocol::{PeerId, Protocol};
use vstd::prelude::*;

verus! {

/// What the driver of the task must do next.
#[derive(Debug, PartialEq, Eq)]
pub enum SenderAction<S, D> {
    /// Wait for the next message of the queue and report it with
    /// [`PeerSender::on_message`].
    Receive,
    /// Ask the network for a sender to `peer` on `protocol` and report the
    /// answer, with `message`, to [`PeerSender::on_sender_created`].
    CreateSender { peer: PeerId, protocol: Protocol, message: D },
    /// Encode `message`, send it through `sender` and report the outcome,
    /// with `sender`, to [`PeerSender::on_sent`].
    Send { sender: S, message: D },
    /// The queue is closed: end the task.
    Exit,
}

/// The two states of the task.
#[derive(Debug, Clone, Copy, PartialEq, Eq, Structural)]
pub enum SenderState {
    /// No sender is held: the next message asks the network for one.
    NoSender,
    /// A sender is held: the next message goes out through it.
    HasSender,
}

/// The task: the peer and protocol it serves, and the sender it holds, if
/// any. `S` is the network's sender of bytes to one peer.
#[derive(Debug, PartialEq, Eq)]
pub struct PeerSender<S> {
    /// The peer that the task sends to.
    pub peer: PeerId,
    /// The protocol that the task sends on.
    pub protocol: Protocol,
    /// The sender that is kept for the next message.
    pub sender: Option<S>,
}

impl<S> PeerSender<S> {
    /// The task of a peer that was just connected: it holds no sender.
    pub open spec fn spec_new(peer: PeerId, protocol: Protocol) -> Self {
        PeerSender { peer, protocol, sender: None }
    }

    /// The state that the task is in.
    pub open spec fn spec_state(&self) -> SenderState {
        match self.sender {
            Some(_) => SenderState::HasSender,
            None => SenderState::NoSender,
        }
    }

    /// The state and the action that follow when the queue yields `next`.
    pub open spec fn spec_on_message<D>(self, next: Option<D>) -> (Self, SenderAction<S, D>) {
        match next {
            None => (self, SenderAction::Exit),
            Some(message) => match self.sender {
                Some(sender) => (
                    PeerSender { sender: None, ..self },
                    SenderAction::Send { sender, message },
                ),
                None => (
                    self,
                    SenderAction::CreateSender {
                        peer: self.peer,
                        protocol: self.protocol,
                        message,
                    },
                ),
            },
        }
    }

    /// The state and the action that follow the network's answer to a
    /// request for a sender.
    pub open spec fn spec_on_sender_created<D, E>(self, created: Result<S, E>, message: D) -> (
        Self,
        SenderAction<S, D>,
    ) {
        match created {
            Ok(sender) => (PeerSender { sender: None, ..self }, SenderAction::Send { sender, message }),
            Err(_) => (PeerSender { sender: None, ..self }, SenderAction::Receive),
        }
    }

    /// The state that follows a send through `sender`.
    pub open spec fn spec_on_sent<E>(self, sender: S, outcome: Result<(), E>) -> Self {
        match outcome {
            Ok(_) => PeerSender { sender: Some(sender), ..self },
            Err(_) => PeerSender { sender: None, ..self },
        }
    }

    /// The task of a peer that was just connected: it holds no sender.
    pub fn new(peer: PeerId, protocol: Protocol) -> (task: Self)
        ensures
            task == Self::spec_new(peer, protocol),
    {
        PeerSender { peer, protocol, sender: None }
    }

    /// The state that the task is in.
    #[verifier::when_used_as_spec(spec_state)]
    pub fn state(&self) -> (state: SenderState)
        ensures
            state == self.spec_state(),
    {
        match self.sender {
            Some(_) => SenderState::HasSender,
            None => SenderState::NoSender,
        }
    }

    /// Takes what the queue yielded. A closed queue ends the task. A
    /// message goes out through the sender that is held; if none is held,
    /// one is asked for first.
    pub fn on_message<D>(&mut self, next: Option<D>) -> (action: SenderAction<S, D>)
        ensures
            (*final(self), action) == old(self).spec_on_message(next),
    {
        match next {
            None => SenderAction::Exit,
            Some(message) => match self.sender.take() {
                Some(sender) => SenderAction::Send { sender, message },
                None => SenderAction::CreateSender {
                    peer: self.peer,
                    protocol: self.protocol,
                    message,
                },
            },
        }
    }

    /// Takes the network's answer to a request for a sender. With a sender
    /// the message goes out through it. Without one the message is dropped
    /// and the task waits for the next message, which will ask again.
    pub fn on_sender_created<D, E>(&mut self, created: Result<S, E>, message: D) -> (action:
        SenderAction<S, D>)
        ensures
            (*final(self), action) == old(self).spec_on_sender_created(created, message),
    {
        self.sender = None;
        match created {
            Ok(sender) => SenderAction::Send { sender, message },
            Err(_) => SenderAction::Receive,
        }
    }

    /// Takes the outcome of a send. A sender that has sent is kept for the
    /// next message; one that has failed is given up, so that the next
    /// message asks for a fresh one. Either way the task goes on.
    pub fn on_sent<D, E>(&mut self, sender: S, outcome: Result<(), E>) -> (action: SenderAction<
        S,
        D,
    >)
        ensures
            *final(self) == old(self).spec_on_sent(sender, outcome),
            action == SenderAction::<S, D>::Receive,
    {
        match outcome {
            Ok(_) => {
                self.sender = Some(sender);
            },
            Err(_) => {
                self.sender = None;
            },
        }
        SenderAction::Receive
    }
}

/// A message that the queue yields goes out as it is, to the task's own
/// peer on the task's own protocol: through the sender that is held, or
/// through the one that the network grants when it is asked for this
/// message.
pub proof fn lemma_message_goes_out_as_queued<S, D, E>(
    task: PeerSender<S>,
    message: D,
    granted: S,
)
    ensures
        ({
            let (waiting, action) = task.spec_on_message(Some(message));
            match task.sender {
                Some(held) => action == SenderAction::<S, D>::Send { sender: held, message },
                None => {
                    &&& action == SenderAction::<S, D>::CreateSender {
                        peer: task.peer,
                        protocol: task.protocol,
                        message,
                    }
                    &&& waiting.spec_on_sender_created(Ok::<S, E>(granted), message).1
                        == SenderAction::<S, D>::Send { sender: granted, message }
                },
            }
        }),
{
}

/// The task ends with its queue and with nothing else: no answer of the
/// network and no outcome of a send ends it.
pub proof fn lemma_task_ends_only_with_queue<S, D, E>(
    task: PeerSender<S>,
    next: Option<D>,
    created: Result<S, E>,
    message: D,
)
    ensures
        task.spec_on_message(next).1 is Exit <==> next is None,
        !(task.spec_on_sender_created(created, message).1 is Exit),
{
}

/// After the network has refused a sender, the peer is not given up: the
/// message at hand is dropped, the next message asks the network again, and
/// if a sender is granted then, that message goes out through it.
pub proof fn lemma_refused_sender_is_asked_for_again<S, D, E>(
    task: PeerSender<S>,
    dropped: D,
    refusal: E,
    next: D,
    granted: S,
)
    ensures
        ({
            let (refused, first) = task.spec_on_sender_created(Err::<S, E>(refusal), dropped);
            let (asking, second) = refused.spec_on_message(Some(next));
            let (sending, third) = asking.spec_on_sender_created(Ok::<S, E>(granted), next);
            &&& first == SenderAction::<S, D>::Receive
            &&& refused.state() == SenderState::NoSender
            &&& second == SenderAction::<S, D>::CreateSender {
                peer: task.peer,
                protocol: task.protocol,
                message: next,
            }
            &&& third == SenderAction::<S, D>::Send { sender: granted, message: next }
        }),
{
}

/// After a send has failed, the sender that failed is not used again: the
/// next message asks the network for a fresh one, goes out through it if one
/// is granted, and a send that succeeds leaves that sender in place.
pub proof fn lemma_failed_send_asks_for_fresh_sender<S, D, E>(
    task: PeerSender<S>,
    failed: S,
    failure: E,
    next: D,
    fresh: S,
)
    ensures
        ({
            let given_up = task.spec_on_sent(failed, Err::<(), E>(failure));
            let (asking, first) = given_up.spec_on_message(Some(next));
            let (sending, second) = asking.spec_on_sender_created(Ok::<S, E>(fresh), next);
            let kept = sending.spec_on_sent(fresh, Ok::<(), E>(()));
            &&& given_up.state() == SenderState::NoSender
            &&& first == SenderAction::<S, D>::CreateSender {
                peer: task.peer,
                protocol: task.protocol,
                message: next,
            }
            &&& second == SenderAction::<S, D>::Send { sender: fresh, message: next }
            &&& kept.state() == SenderState::HasSender
            &&& kept.sender == Some(fresh)
        }),
{
}

} // verus!
