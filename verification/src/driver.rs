//! The service's event loop, one turn at a time.
//!
//! The loop waits on three sources: the network's events, the messages
//! that the application wants sent, and a timer. Whoever runs the loop
//! reports what became ready; the service does its part and says what is
//! left to do, or that the loop has ended.

use crate::event::{payloads, Event};
use crate::protocol::Protocol;
use crate::service::{status_text, Delivery, Dispatch, Service, Undelivered};
use vstd::prelude::*;

verus! {

/// What became ready in one turn of the loop.
#[derive(Debug)]
pub enum Input<D> {
    /// The network's event stream yielded an event, or has ended.
    Network(Option<Event<D>>),
    /// The application submitted a message for sending, or has dropped its
    /// end of the channel.
    User(Option<D>),
    /// The timer of the status report has fired.
    Tick,
}

/// Why the loop has ended.
#[derive(Debug, PartialEq, Eq)]
pub enum StopReason<D> {
    /// The network's event stream has ended.
    NetworkStreamEnded,
    /// The application has dropped its sending end.
    UserStreamEnded,
    /// The application has dropped its receiving end: an inbound message
    /// could not be handed to it.
    CannotForward(Undelivered<D>),
}

/// What one turn of the loop leaves to do.
#[derive(Debug)]
#[verifier::reject_recursive_types(D)]
pub enum Output<D> {
    /// A network event was handled.
    Handled(Dispatch<D>),
    /// A message of the application was offered to every connected peer of
    /// the authentication protocol; the report is there to be logged.
    Sent(Vec<Delivery>),
    /// The status report, to be logged.
    Status(String),
    /// The loop has ended and must not be turned again.
    Stopped(StopReason<D>),
}

impl<D: Clone> Service<D> {
    /// What one turn on `input` makes of the service `before`: the service
    /// after it and what is left to do.
    pub open spec fn steps(before: Self, input: Input<D>, after: Self, output: Output<D>) -> bool {
        match input {
            Input::Network(Some(event)) => match output {
                Output::Handled(dispatch) => Self::handles(
                    before,
                    event,
                    after,
                    Ok::<Dispatch<D>, Undelivered<D>>(dispatch),
                ),
                Output::Stopped(StopReason::CannotForward(undelivered)) => Self::handles(
                    before,
                    event,
                    after,
                    Err::<Dispatch<D>, Undelivered<D>>(undelivered),
                ),
                _ => false,
            },
            Input::Network(None) => {
                &&& after == before
                &&& output == Output::<D>::Stopped(StopReason::NetworkStreamEnded)
            },
            Input::User(Some(_)) => {
                &&& after == before
                &&& output matches Output::Sent(report)
                &&& before.broadcasts(Protocol::Authentication, report@)
            },
            Input::User(None) => {
                &&& after == before
                &&& output == Output::<D>::Stopped(StopReason::UserStreamEnded)
            },
            Input::Tick => {
                &&& after == before
                &&& output matches Output::Status(status)
                &&& status@ == status_text(before.connected(Protocol::Authentication).len())
            },
        }
    }

    /// Takes one turn of the loop.
    ///
    /// A network event is handled; the loop ends if an inbound message
    /// cannot be handed to the application. A message of the application
    /// is broadcast on the authentication protocol. The timer yields the
    /// status report. The end of the network's event stream, or of the
    /// application's messages, ends the loop.
    pub fn step(&mut self, input: Input<D>) -> (output: Output<D>)
        requires
            old(self).wf(),
        ensures
            final(self).wf(),
            Self::steps(*old(self), input, *final(self), output),
    {
        match input {
            Input::Network(Some(event)) => match self.handle_network_event(event) {
                Ok(dispatch) => Output::Handled(dispatch),
                Err(undelivered) => Output::Stopped(StopReason::CannotForward(undelivered)),
            },
            Input::Network(None) => Output::Stopped(StopReason::NetworkStreamEnded),
            Input::User(Some(message)) => Output::Sent(
                self.broadcast(message, Protocol::Authentication),
            ),
            Input::User(None) => Output::Stopped(StopReason::UserStreamEnded),
            Input::Tick => Output::Status(self.status_report()),
        }
    }

    /// The loop ends on nothing but the end of one of its two streams or an
    /// inbound message that the application's channel did not take. A
    /// connect, a disconnect, a batch without a decoded message, a message to
    /// broadcast and the timer never end it.
    pub proof fn lemma_stops_only_when_fatal(
        before: Self,
        input: Input<D>,
        after: Self,
        output: Output<D>,
    )
        requires
            Self::steps(before, input, after, output),
            output is Stopped,
        ensures
            match input {
                Input::Network(None) => output->Stopped_0 is NetworkStreamEnded,
                Input::User(None) => output->Stopped_0 is UserStreamEnded,
                Input::Network(Some(Event::Messages(frames))) => {
                    &&& output->Stopped_0 is CannotForward
                    &&& payloads(frames@).len() > 0
                },
                _ => false,
            },
    {
    }
}

} // verus!
