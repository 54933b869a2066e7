//! A session: what the server knows of one connection.
//!
//! A session is anonymous until the first text that its client sends, which
//! becomes its name for good. Only a named session is shown what travels
//! over the bus.

use crate::bus::{Bus, Received, Subscription};
use crate::event::{
    copy_text, join_event, message_event, text_view, BroadcastEvent, EventView,
};
use vstd::prelude::*;

verus! {

/// The mathematical value of a [`Session`].
pub struct SessionView<H> {
    /// The connection's identifier, fixed at its creation.
    pub id: u128,
    /// The declared name, if any.
    pub name: Option<Seq<char>>,
    /// How many events were handed to the client so far: the sequence number
    /// of the next one.
    pub delivered: nat,
    /// The sequence number of the next bus event that the session will read.
    pub cursor: nat,
    /// The handle to the connection's outbound duty.
    pub outbound: H,
}

/// The mathematical value of a [`Delivery`].
pub struct DeliveryView {
    pub event: EventView,
    pub sequence: nat,
}

impl<H> SessionView<H> {
    /// Whether the session has declared its name.
    pub open spec fn is_named(self) -> bool {
        self.name is Some
    }

    /// The event that the session causes by sending `text`: a join under
    /// that name while it is anonymous, a message of its own afterwards.
    pub open spec fn said(self, text: Seq<char>) -> EventView {
        match self.name {
            None => join_event(text),
            Some(name) => message_event(name, text),
        }
    }

    /// The session after it sent `text` while the bus stood at `now`: an
    /// anonymous session takes the text as its name and reads the bus from
    /// `now` on; a named one is unchanged.
    pub open spec fn after_saying(self, text: Seq<char>, now: nat) -> SessionView<H> {
        match self.name {
            None => SessionView { name: Some(text), cursor: now, ..self },
            Some(_) => self,
        }
    }

    /// What is handed to the client when `event` is delivered now.
    pub open spec fn delivery(self, event: EventView) -> DeliveryView {
        DeliveryView { event, sequence: self.delivered }
    }

    /// The session after one more event was handed to its client.
    pub open spec fn after_delivery(self) -> SessionView<H> {
        SessionView { delivered: self.delivered + 1, ..self }
    }

    /// The session after `event` came from the bus: a named session is
    /// handed the event, an anonymous one is not.
    pub open spec fn after_offer(self) -> SessionView<H> {
        if self.is_named() {
            self.after_delivery()
        } else {
            self
        }
    }

    /// What the client is handed when `event` comes from the bus.
    pub open spec fn offered(self, event: EventView) -> Option<DeliveryView> {
        if self.is_named() {
            Some(self.delivery(event))
        } else {
            None
        }
    }
}

/// An event on its way to one client, with the number that the renderer
/// needs: numbers rise by one with each delivery to the same client.
#[derive(Debug)]
pub struct Delivery {
    pub event: BroadcastEvent,
    pub sequence: u64,
}

impl View for Delivery {
    type V = DeliveryView;

    open spec fn view(&self) -> DeliveryView {
        DeliveryView { event: self.event@, sequence: self.sequence as nat }
    }
}

/// The value of an optional delivery.
pub open spec fn delivery_view(d: Option<Delivery>) -> Option<DeliveryView> {
    match d {
        Some(d) => Some(d@),
        None => None,
    }
}

/// Server-side state of one client connection.
pub struct Session<H> {
    id: u128,
    name: Option<String>,
    delivered: u64,
    subscription: Subscription,
    outbound: H,
}

impl<H> View for Session<H> {
    type V = SessionView<H>;

    closed spec fn view(&self) -> SessionView<H> {
        SessionView {
            id: self.id,
            name: text_view(self.name),
            delivered: self.delivered as nat,
            cursor: self.subscription@,
            outbound: self.outbound,
        }
    }
}

impl<H> Session<H> {
    /// A new, anonymous session that reads the bus through `subscription`.
    pub fn new(id: u128, outbound: H, subscription: Subscription) -> (r: Self)
        ensures
            r@ == (SessionView {
                id,
                name: None,
                delivered: 0,
                cursor: subscription@,
                outbound,
            }),
    {
        Session { id, name: None, delivered: 0, subscription, outbound }
    }

    /// The connection's identifier.
    pub fn id(&self) -> (r: u128)
        ensures
            r == self@.id,
    {
        self.id
    }

    /// The declared name, if any.
    pub fn name(&self) -> (r: Option<String>)
        ensures
            text_view(r) == self@.name,
    {
        copy_text(&self.name)
    }

    /// Whether the session has declared its name.
    pub fn is_named(&self) -> (r: bool)
        ensures
            r == self@.is_named(),
    {
        self.name.is_some()
    }

    /// How many events were handed to the client so far.
    pub fn delivered(&self) -> (r: u64)
        ensures
            r == self@.delivered,
    {
        self.delivered
    }

    /// The handle to the connection's outbound duty.
    pub fn outbound(&self) -> (r: &H)
        ensures
            *r == self@.outbound,
    {
        &self.outbound
    }

    /// Reads the session's next event from `bus` and moves its cursor.
    pub fn poll(&mut self, bus: &Bus) -> (r: Received)
        requires
            bus.wf(),
        ensures
            r@ == bus@.poll(old(self)@.cursor),
            final(self)@ == (SessionView {
                cursor: bus@.advance(old(self)@.cursor),
                ..old(self)@
            }),
    {
        bus.receive(&mut self.subscription)
    }

    /// Takes `text` from the client. The first text names the session, which
    /// from then on reads the bus through `now`; every later text is a
    /// message. Returns the event to publish.
    pub fn speak(&mut self, text: String, now: Subscription) -> (r: BroadcastEvent)
        ensures
            r@ == old(self)@.said(text@),
            final(self)@ == old(self)@.after_saying(text@, now@),
    {
        match copy_text(&self.name) {
            Some(name) => BroadcastEvent::message(name, text),
            None => {
                self.name = Some(text.clone());
                self.subscription = now;
                BroadcastEvent::join(text)
            },
        }
    }

    /// Hands `event` to the client whatever the session's state, as the
    /// server does with what it has to say to this client alone.
    pub fn notify(&mut self, event: BroadcastEvent) -> (r: Delivery)
        requires
            old(self)@.delivered < u64::MAX,
        ensures
            r@ == old(self)@.delivery(event@),
            final(self)@ == old(self)@.after_delivery(),
    {
        let sequence = self.delivered;
        self.delivered = self.delivered + 1;
        Delivery { event, sequence }
    }

    /// Offers the session an event that came from the bus. A named session
    /// is handed it; an anonymous one is not, and the event is gone.
    pub fn offer(&mut self, event: BroadcastEvent) -> (r: Option<Delivery>)
        requires
            old(self)@.delivered < u64::MAX,
        ensures
            delivery_view(r) == old(self)@.offered(event@),
            final(self)@ == old(self)@.after_offer(),
    {
        if self.name.is_some() {
            Some(self.notify(event))
        } else {
            None
        }
    }

    /// Ends the session: gives back its outbound handle and, for a named
    /// session, the event that announces its leaving.
    pub fn close(self) -> (r: (Option<BroadcastEvent>, H))
        ensures
            crate::event::event_view(r.0) == self@.farewell(),
            r.1 == self@.outbound,
    {
        match self.name {
            Some(name) => (Some(BroadcastEvent::leave(name)), self.outbound),
            None => (None, self.outbound),
        }
    }
}

impl<H> SessionView<H> {
    /// The event that announces the end of the session: a leave under its
    /// name if it has one, nothing otherwise.
    pub open spec fn farewell(self) -> Option<EventView> {
        match self.name {
            Some(name) => Some(crate::event::leave_event(name)),
            None => None,
        }
    }
}

} // verus!
