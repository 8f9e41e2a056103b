//! The application's side of the service.

use crate::channel::hand_over;
use crate::error::Error;
use futures::channel::mpsc::{UnboundedReceiver, UnboundedSender};
use vstd::prelude::*;

verus! {

/// The two channel ends that the application holds: one to submit messages
/// for sending, one to take the messages that peers have sent.
#[verifier::reject_recursive_types(D)]
pub struct ServiceInterface<D> {
    /// Yields the messages that the service has received from peers.
    pub messages_from_service: UnboundedReceiver<D>,
    /// Takes the messages that the service shall send to every peer.
    pub messages_for_service: UnboundedSender<D>,
    submitted: Ghost<Seq<D>>,
}

impl<D> ServiceInterface<D> {
    /// The messages that the channel to the service has taken from this
    /// interface so far, the first of them first.
    pub closed spec fn submitted(&self) -> Seq<D> {
        self.submitted@
    }

    /// The two channel ends of this interface: the consuming end of the
    /// channel from the service and the producing end of the channel to it.
    pub closed spec fn ends(&self) -> (UnboundedReceiver<D>, UnboundedSender<D>) {
        (self.messages_from_service, self.messages_for_service)
    }

    /// The interface on two channel ends, through which nothing has been
    /// submitted yet.
    pub fn new(
        messages_from_service: UnboundedReceiver<D>,
        messages_for_service: UnboundedSender<D>,
    ) -> (interface: Self)
        ensures
            interface.ends() == (messages_from_service, messages_for_service),
            interface.submitted() == Seq::<D>::empty(),
    {
        ServiceInterface {
            messages_from_service,
            messages_for_service,
            submitted: Ghost(Seq::empty()),
        }
    }

    /// Submits a message for sending to every connected peer. This does not
    /// wait. A message that the channel takes joins the submitted ones. A
    /// message that the channel does not take is dropped, none is
    /// submitted, and the failure is that the service has stopped. The two
    /// channel ends stay as they are.
    pub fn broadcast(&mut self, data: D) -> (result: Result<(), Error>)
        ensures
            final(self).ends() == old(self).ends(),
            match result {
                Ok(_) => final(self).submitted() == old(self).submitted().push(data),
                Err(error) => {
                    &&& error == Error::ServiceStopped
                    &&& final(self).submitted() == old(self).submitted()
                },
            },
    {
        let ghost offered = data;
        let result = Error::classify(hand_over(&self.messages_for_service, data));
        if result.is_ok() {
            self.submitted = Ghost(self.submitted@.push(offered));
        }
        result
    }

    /// What the application gets when its receiver has yielded `next`: the
    /// message, or the news that the service has stopped.
    pub fn received(next: Option<D>) -> (result: Result<D, Error>)
        ensures
            result == match next {
                Some(message) => Ok::<D, Error>(message),
                None => Err::<D, Error>(Error::ServiceStopped),
            },
    {
        match next {
            Some(message) => Ok(message),
            None => Err(Error::ServiceStopped),
        }
    }
}

} // verus!
