//! What a handler has decided to send and to report, until the caller takes it.

use crate::error::ErrorView;
use crate::error::NetworkingError;
use crate::messages::EventView;
use crate::messages::MessageView;
use crate::messages::Outbound;
use crate::messages::OutboundView;
use crate::messages::PairingEvent;
use crate::messages::PairingMessage;
use vstd::prelude::*;

verus! {

/// The mathematical value of an [`Outbox`].
pub ghost struct OutboxView {
    pub messages: Seq<OutboundView>,
    pub events: Seq<EventView>,
    /// Whether the channel to the network is still there.
    pub open: bool,
}

impl OutboxView {
    /// The outbox after a message was handed to it: the message is added where
    /// the channel is open, and nothing changes otherwise.
    pub open spec fn sent(self, node_id: Seq<u8>, message: MessageView) -> OutboxView {
        if self.open {
            OutboxView {
                messages: self.messages.push(OutboundView::Message { node_id, message }),
                ..self
            }
        } else {
            self
        }
    }

    /// The outbox after an event was reported.
    pub open spec fn emitted(self, event: EventView) -> OutboxView {
        OutboxView { events: self.events.push(event), ..self }
    }
}

/// The messages and events that a handler has produced and that its caller has
/// not taken yet. Handing a message to the outbox is all that sending means to
/// the handler: it does not wait for delivery.
#[derive(Debug)]
pub struct Outbox {
    messages: Vec<Outbound>,
    events: Vec<PairingEvent>,
    open: bool,
}

impl View for Outbox {
    type V = OutboxView;

    closed spec fn view(&self) -> OutboxView {
        OutboxView {
            messages: self.messages@.map_values(|o: Outbound| o@),
            events: self.events@.map_values(|e: PairingEvent| e@),
            open: self.open,
        }
    }
}

impl Outbox {
    /// An empty outbox with an open channel.
    pub fn new() -> (o: Outbox)
        ensures
            o@ == (OutboxView { messages: Seq::empty(), events: Seq::empty(), open: true }),
    {
        let o = Outbox { messages: Vec::new(), events: Vec::new(), open: true };
        assert(o@.messages =~= Seq::empty());
        assert(o@.events =~= Seq::empty());
        o
    }

    /// Whether the channel to the network is still there.
    pub fn is_open(&self) -> (r: bool)
        ensures
            r == self@.open,
    {
        self.open
    }

    /// Records that the channel to the network is gone. From now on every send
    /// fails.
    pub fn close(&mut self)
        ensures
            final(self)@ == (OutboxView { open: false, ..old(self)@ }),
    {
        self.open = false;
    }

    /// Hands a message for a node to the outbox. Fails where the channel is
    /// gone.
    pub fn send(&mut self, node_id: Vec<u8>, message: PairingMessage) -> (r: Result<
        (),
        NetworkingError,
    >)
        ensures
            final(self)@ == old(self)@.sent(node_id@, message@),
            old(self)@.open ==> r is Ok,
            !old(self)@.open ==> (r matches Err(e) && e@ == ErrorView::ChannelClosed),
    {
        if !self.open {
            return Err(NetworkingError::ChannelClosed);
        }
        let ghost before = self@;
        self.messages.push(Outbound::Message { node_id, message });
        assert(self@.messages =~= before.messages.push(
            OutboundView::Message { node_id: node_id@, message: message@ },
        ));
        Ok(())
    }

    /// Adds what a driver decided to send.
    pub fn extend(&mut self, mut outbound: Vec<Outbound>)
        ensures
            final(self)@ == (OutboxView {
                messages: old(self)@.messages + outbound@.map_values(|o: Outbound| o@),
                ..old(self)@
            }),
    {
        let ghost before = self@;
        let ghost added = outbound@.map_values(|o: Outbound| o@);
        self.messages.append(&mut outbound);
        assert(self@.messages =~= before.messages + added);
    }

    /// Reports an event.
    pub fn emit(&mut self, event: PairingEvent)
        ensures
            final(self)@ == old(self)@.emitted(event@),
    {
        let ghost before = self@;
        self.events.push(event);
        assert(self@.events =~= before.events.push(event@));
    }

    /// Takes the messages that wait to be sent, in the order in which they
    /// were handed over.
    pub fn take_messages(&mut self) -> (messages: Vec<Outbound>)
        ensures
            messages@.map_values(|o: Outbound| o@) == old(self)@.messages,
            final(self)@ == (OutboxView { messages: Seq::empty(), ..old(self)@ }),
    {
        let mut taken: Vec<Outbound> = Vec::new();
        let ghost before = self@;
        taken.append(&mut self.messages);
        assert(taken@.map_values(|o: Outbound| o@) =~= before.messages);
        assert(self@.messages =~= Seq::empty());
        taken
    }

    /// Takes the events that wait to be reported, in the order in which they
    /// occurred.
    pub fn take_events(&mut self) -> (events: Vec<PairingEvent>)
        ensures
            events@.map_values(|e: PairingEvent| e@) == old(self)@.events,
            final(self)@ == (OutboxView { events: Seq::empty(), ..old(self)@ }),
    {
        let mut taken: Vec<PairingEvent> = Vec::new();
        let ghost before = self@;
        taken.append(&mut self.events);
        assert(taken@.map_values(|e: PairingEvent| e@) =~= before.events);
        assert(self@.events =~= Seq::empty());
        taken
    }
}

} // verus!
