//! The broadcast bus: a bounded ring of events that every subscriber reads
//! through a cursor of its own. A subscriber that falls more than the ring's
//! capacity behind loses the oldest events and is told how many.

use crate::event::{BroadcastEvent, EventView};
use std::collections::VecDeque;
use vstd::prelude::*;

verus! {

/// The mathematical value of a [`Bus`]: the events still retained, oldest
/// first, and the sequence number of the oldest of them. Events are numbered
/// from zero in the order of their publication.
pub struct BusView {
    pub capacity: nat,
    pub first: nat,
    pub retained: Seq<EventView>,
}

/// What a subscriber gets when it asks for its next event.
pub enum ReceivedView {
    /// The next event in publication order.
    Event(EventView),
    /// That many events were dropped before the subscriber read them.
    Lagged(nat),
    /// Nothing has been published that the subscriber has not seen.
    Empty,
}

impl BusView {
    /// The number of events published so far.
    pub open spec fn published(self) -> nat {
        self.first + self.retained.len()
    }

    /// A bus retains at most `capacity` events, and `capacity` is positive.
    pub open spec fn valid(self) -> bool {
        1 <= self.capacity && self.retained.len() <= self.capacity
    }

    /// The bus after `event` was published: the event is appended, and the
    /// oldest one leaves if the ring was full.
    pub open spec fn publish(self, event: EventView) -> BusView {
        if self.retained.len() < self.capacity {
            BusView { retained: self.retained.push(event), ..self }
        } else {
            BusView {
                first: self.first + 1,
                retained: self.retained.drop_first().push(event),
                ..self
            }
        }
    }

    /// What a subscriber whose cursor stands at `cursor` receives.
    pub open spec fn poll(self, cursor: nat) -> ReceivedView {
        if cursor < self.first {
            ReceivedView::Lagged((self.first - cursor) as nat)
        } else if cursor < self.published() {
            ReceivedView::Event(self.retained[cursor - self.first])
        } else {
            ReceivedView::Empty
        }
    }

    /// Where the cursor stands after that poll: behind a gap it jumps to the
    /// oldest retained event, after an event it moves on by one, and with
    /// nothing to read it stays.
    pub open spec fn advance(self, cursor: nat) -> nat {
        if cursor < self.first {
            self.first
        } else if cursor < self.published() {
            cursor + 1
        } else {
            cursor
        }
    }
}

/// The bus after `events` were published one after the other.
pub open spec fn publish_all(bus: BusView, events: Seq<EventView>) -> BusView
    decreases events.len(),
{
    if events.len() == 0 {
        bus
    } else {
        publish_all(bus, events.drop_last()).publish(events.last())
    }
}

/// What a run of publications leaves on the bus: the ring stays within its
/// capacity, every event is counted, the oldest retained event is the
/// oldest that still fits, and each retained event of the run stands at the
/// place of its sequence number.
pub proof fn lemma_publish_all(bus: BusView, events: Seq<EventView>)
    requires
        bus.valid(),
    ensures
        publish_all(bus, events).valid(),
        publish_all(bus, events).capacity == bus.capacity,
        publish_all(bus, events).published() == bus.published() + events.len(),
        publish_all(bus, events).first == if bus.published() + events.len() - bus.capacity
            > bus.first {
            bus.published() + events.len() - bus.capacity
        } else {
            bus.first as int
        },
        forall|i: int|
            0 <= i < events.len() && bus.published() + i >= publish_all(bus, events).first
                ==> publish_all(bus, events).retained[bus.published() + i - publish_all(
                bus,
                events,
            ).first] == #[trigger] events[i],
    decreases events.len(),
{
    if events.len() > 0 {
        let earlier = events.drop_last();
        lemma_publish_all(bus, earlier);
        let before = publish_all(bus, earlier);
        let after = before.publish(events.last());
        assert forall|i: int|
            0 <= i < events.len() && bus.published() + i >= after.first implies after.retained[bus.published()
            + i - after.first] == #[trigger] events[i] by {
            if i < earlier.len() {
                assert(earlier[i] == events[i]);
            }
        }
    }
}

/// A subscriber that stops reading sees a gap, the publisher is never held
/// up, and the ring never grows beyond its capacity.
///
/// Take a valid bus and a subscriber that has read up to `cursor`, at or
/// after the bus's present count. Publish `events`, which needs nothing of
/// any subscriber. The ring then still holds at most `capacity` events. If
/// more than `capacity` of the new events are unread, the subscriber is told
/// of the gap with the exact number of events lost, and its next event is
/// the oldest still retained. Otherwise it gets the very event that follows
/// the last one it read, and nothing when it has read them all.
pub proof fn law_slow_reader_sees_gap(bus: BusView, events: Seq<EventView>, cursor: nat)
    requires
        bus.valid(),
        bus.published() <= cursor <= bus.published() + events.len(),
    ensures
        ({
            let after = publish_all(bus, events);
            let read = cursor - bus.published();
            let unread = events.len() - read;
            &&& after.valid()
            &&& after.retained.len() <= bus.capacity
            &&& after.published() == bus.published() + events.len()
            &&& unread > bus.capacity ==> {
                &&& after.poll(cursor) == ReceivedView::Lagged((unread - bus.capacity) as nat)
                &&& after.poll(after.advance(cursor)) == ReceivedView::Event(
                    events[events.len() - bus.capacity],
                )
            }
            &&& 0 < unread <= bus.capacity ==> {
                &&& after.poll(cursor) == ReceivedView::Event(events[read])
                &&& after.advance(cursor) == cursor + 1
            }
            &&& unread == 0 ==> {
                &&& after.poll(cursor) == ReceivedView::Empty
                &&& after.advance(cursor) == cursor
            }
        }),
{
    lemma_publish_all(bus, events);
    let after = publish_all(bus, events);
    let read = cursor - bus.published();
    let unread = events.len() - read;
    if unread > bus.capacity {
        let oldest = events.len() - bus.capacity;
        assert(after.retained[bus.published() + oldest - after.first] == events[oldest]);
    } else if unread > 0 {
        assert(after.retained[bus.published() + read - after.first] == events[read]);
    }
}

/// A subscriber's read cursor: the sequence number of the next event it
/// expects.
#[derive(Debug)]
pub struct Subscription {
    next: u64,
}

impl View for Subscription {
    type V = nat;

    closed spec fn view(&self) -> nat {
        self.next as nat
    }
}

impl Subscription {
    /// The sequence number of the next event this subscriber expects.
    pub fn position(&self) -> (r: u64)
        ensures
            r == self@,
    {
        self.next
    }
}

/// What [`Bus::receive`] hands to a subscriber.
#[derive(Debug)]
pub enum Received {
    /// The next event in publication order.
    Event(BroadcastEvent),
    /// That many events were dropped before the subscriber read them.
    Lagged(u64),
    /// Nothing has been published that the subscriber has not seen.
    Empty,
}

impl View for Received {
    type V = ReceivedView;

    open spec fn view(&self) -> ReceivedView {
        match self {
            Received::Event(e) => ReceivedView::Event(e@),
            Received::Lagged(n) => ReceivedView::Lagged(*n as nat),
            Received::Empty => ReceivedView::Empty,
        }
    }
}

/// The broadcast bus.
pub struct Bus {
    capacity: usize,
    ring: VecDeque<BroadcastEvent>,
    published: u64,
}

impl View for Bus {
    type V = BusView;

    closed spec fn view(&self) -> BusView {
        BusView {
            capacity: self.capacity as nat,
            first: (self.published - self.ring@.len()) as nat,
            retained: self.ring@.map_values(|e: BroadcastEvent| e@),
        }
    }
}

impl Bus {
    /// The ring holds no more than its capacity, and no more than was ever
    /// published.
    pub closed spec fn wf(&self) -> bool {
        &&& 1 <= self.capacity
        &&& self.ring@.len() <= self.capacity
        &&& self.ring@.len() <= self.published
    }

    /// A well-formed bus has a valid value.
    pub proof fn lemma_wf_valid(&self)
        requires
            self.wf(),
        ensures
            self@.valid(),
    {
    }

    /// An empty bus that retains up to `capacity` events.
    pub fn new(capacity: usize) -> (r: Self)
        requires
            capacity >= 1,
        ensures
            r.wf(),
            r@ == (BusView { capacity: capacity as nat, first: 0, retained: Seq::empty() }),
    {
        let r = Bus { capacity, ring: VecDeque::new(), published: 0 };
        assert(r@.retained =~= Seq::empty());
        r
    }

    /// The number of events the bus retains at most.
    pub fn capacity(&self) -> (r: usize)
        ensures
            r == self@.capacity,
    {
        self.capacity
    }

    /// The number of events published so far.
    pub fn published(&self) -> (r: u64)
        requires
            self.wf(),
        ensures
            r == self@.published(),
    {
        self.published
    }

    /// Whether one more event can be numbered.
    pub fn has_room(&self) -> (r: bool)
        requires
            self.wf(),
        ensures
            r == (self@.published() < u64::MAX),
    {
        self.published < u64::MAX
    }

    /// Publishes `event` to every subscriber. The publisher never waits: if
    /// the ring is full the oldest event is dropped.
    pub fn publish(&mut self, event: BroadcastEvent)
        requires
            old(self).wf(),
            old(self)@.published() < u64::MAX,
        ensures
            final(self).wf(),
            final(self)@ == old(self)@.publish(event@),
    {
        let ghost before = self.ring@;
        self.published = self.published + 1;
        if self.ring.len() >= self.capacity {
            self.ring.pop_front();
        }
        self.ring.push_back(event);
        proof {
            let f = |e: BroadcastEvent| e@;
            if before.len() < self.capacity {
                assert(self.ring@.map_values(f) =~= before.map_values(f).push(event@));
            } else {
                assert(self.ring@.map_values(f) =~= before.map_values(f).drop_first().push(
                    event@,
                ));
            }
        }
    }

    /// A new cursor that starts at "now": it will see only what is published
    /// from here on.
    pub fn subscribe(&self) -> (r: Subscription)
        requires
            self.wf(),
        ensures
            r@ == self@.published(),
    {
        Subscription { next: self.published }
    }

    /// Hands `subscription` its next event, or tells it of a gap, or that
    /// there is nothing to read, and moves its cursor accordingly.
    pub fn receive(&self, subscription: &mut Subscription) -> (r: Received)
        requires
            self.wf(),
        ensures
            r@ == self@.poll(old(subscription)@),
            final(subscription)@ == self@.advance(old(subscription)@),
    {
        let held: u64 = self.ring.len() as u64;
        let first: u64 = self.published - held;
        if subscription.next < first {
            let missed: u64 = first - subscription.next;
            subscription.next = first;
            Received::Lagged(missed)
        } else if subscription.next < self.published {
            let at: usize = (subscription.next - first) as usize;
            let event = self.ring[at].clone();
            subscription.next = subscription.next + 1;
            Received::Event(event)
        } else {
            Received::Empty
        }
    }
}

impl Default for Bus {
    fn default() -> (r: Self)
        ensures
            r.wf(),
            r@ == (BusView {
                capacity: crate::DEFAULT_CAPACITY as nat,
                first: 0,
                retained: Seq::empty(),
            }),
    {
        Bus::new(crate::DEFAULT_CAPACITY)
    }
}

} // verus!
