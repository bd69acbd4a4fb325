//! Receiving Bob's encrypted signature over a request/response exchange:
//! what is done with each thing that the transport reports, and the queue of
//! what is waiting to be handed on.

use crate::network::request_response::{Config, ProtocolSupport, TIMEOUT};
use crate::protocol::bob::EncryptedSignature;
use std::collections::VecDeque;
use vstd::prelude::*;

verus! {

/// What the behaviour hands on.
#[derive(Debug, Clone, Copy)]
pub enum OutEvent {
    Msg(EncryptedSignature),
}

/// What the transport reports of the exchange.
#[derive(Debug, Clone, Copy)]
pub enum Event {
    /// Bob's request came in.
    Request(EncryptedSignature),
    /// A response came in, though Alice sends no request in this exchange.
    Response,
    /// Receiving a request or answering it failed.
    InboundFailure,
    /// Sending a request failed.
    OutboundFailure,
    /// Alice's response went out.
    ResponseSent,
}

/// What is to be done on the transport after an event.
#[derive(Debug, Clone, Copy, PartialEq, Eq, Structural)]
pub enum Reaction {
    /// Answer the request with the empty response, so that the exchange
    /// completes.
    Acknowledge,
    /// Nothing.
    Nothing,
}

/// A message that the protocol does not allow.
#[derive(Debug, Clone, Copy, PartialEq, Eq, Structural)]
pub enum ProtocolViolation {
    /// Alice got a response.
    UnexpectedResponse,
}

/// The queue after `event`: a request is put at its end, nothing else
/// changes it.
pub open spec fn queue_after(queue: Seq<OutEvent>, event: Event) -> Seq<OutEvent> {
    match event {
        Event::Request(request) => queue.push(OutEvent::Msg(request)),
        _ => queue,
    }
}

/// What is owed to the transport after `event`.
pub open spec fn reaction_to(event: Event) -> Result<Reaction, ProtocolViolation> {
    match event {
        Event::Request(_) => Ok(Reaction::Acknowledge),
        Event::Response => Err(ProtocolViolation::UnexpectedResponse),
        _ => Ok(Reaction::Nothing),
    }
}

/// The queue after each of `events` in turn.
pub open spec fn queue_after_all(queue: Seq<OutEvent>, events: Seq<Event>) -> Seq<OutEvent>
    decreases events.len(),
{
    if events.len() == 0 {
        queue
    } else {
        queue_after(queue_after_all(queue, events.drop_last()), events.last())
    }
}

/// The requests among `events`, in their order, as they are handed on.
pub open spec fn requests_of(events: Seq<Event>) -> Seq<OutEvent>
    decreases events.len(),
{
    if events.len() == 0 {
        Seq::empty()
    } else {
        queue_after(requests_of(events.drop_last()), events.last())
    }
}

/// Whatever the transport reports, the queue grows by the requests that came
/// in, in the order in which they came, and by nothing else.
pub proof fn lemma_requests_queue_in_order(queue: Seq<OutEvent>, events: Seq<Event>)
    ensures
        queue_after_all(queue, events) == queue + requests_of(events),
    decreases events.len(),
{
    if events.len() == 0 {
        assert(queue + requests_of(events) =~= queue);
    } else {
        lemma_requests_queue_in_order(queue, events.drop_last());
        assert(queue_after_all(queue, events) =~= queue + requests_of(events));
    }
}

/// The part of the behaviour that decides: its settings, and the queue of
/// events that are waiting to be handed on.
pub struct Behaviour {
    config: Config,
    events: VecDeque<OutEvent>,
}

impl View for Behaviour {
    type V = Seq<OutEvent>;

    /// The waiting events, oldest first.
    closed spec fn view(&self) -> Seq<OutEvent> {
        self.events@
    }
}

impl Behaviour {
    /// The settings that the exchange was made with.
    pub closed spec fn settings(&self) -> Config {
        self.config
    }

    /// The settings that the exchange was made with.
    pub fn config(&self) -> (config: Config)
        ensures
            config == self.settings(),
    {
        self.config
    }

    /// Hands on the oldest waiting event, if there is one.
    pub fn poll(&mut self) -> (next: Option<OutEvent>)
        ensures
            final(self).settings() == old(self).settings(),
            old(self)@.len() == 0 ==> next is None && final(self)@ == old(self)@,
            old(self)@.len() > 0 ==> next == Some(old(self)@[0]) && final(self)@ == old(
                self,
            )@.drop_first(),
    {
        let next = self.events.pop_front();
        proof {
            if old(self)@.len() > 0 {
                assert(self@ =~= old(self)@.drop_first());
            }
        }
        next
    }

    /// Takes in what the transport reports. A request is queued to be handed
    /// on and is to be acknowledged; a response is a violation of the
    /// protocol; nothing else has an effect.
    pub fn inject_event(&mut self, event: Event) -> (reaction: Result<Reaction, ProtocolViolation>)
        ensures
            final(self).settings() == old(self).settings(),
            final(self)@ == queue_after(old(self)@, event),
            reaction == reaction_to(event),
    {
        match event {
            Event::Request(request) => {
                self.events.push_back(OutEvent::Msg(request));
                Ok(Reaction::Acknowledge)
            },
            Event::Response => Err(ProtocolViolation::UnexpectedResponse),
            Event::InboundFailure => Ok(Reaction::Nothing),
            Event::OutboundFailure => Ok(Reaction::Nothing),
            Event::ResponseSent => Ok(Reaction::Nothing),
        }
    }
}

impl Default for Behaviour {
    /// A behaviour that only receives requests, with the usual timeout and
    /// nothing waiting.
    fn default() -> (behaviour: Behaviour)
        ensures
            behaviour@ == Seq::<OutEvent>::empty(),
            behaviour.settings() == (Config {
                request_timeout_secs: TIMEOUT,
                support: ProtocolSupport::Inbound,
            }),
    {
        Behaviour {
            config: Config { request_timeout_secs: TIMEOUT, support: ProtocolSupport::Inbound },
            events: VecDeque::new(),
        }
    }
}

} // verus!
