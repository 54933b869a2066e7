//! The relay: the registry and the bus together, and the steps by which a
//! connection is accepted, heard, served and torn down.
//!
//! Each connection runs three duties. The inbound duty hands every frame to
//! [`Relay::handle_frame`], the forwarder duty asks [`Relay::forward`] for
//! what to show the client, and whichever duty ends first calls
//! [`Relay::teardown`], which says which duties to cancel.

use crate::bus::{Bus, BusView, Received, ReceivedView};
use crate::calls::{
    answer_command, asks_for_names, classify_command, command_reply, ClientCall, ClientCallView,
    CommandKind, ServerCall, ServerCallView,
};
use crate::event::{error_event, event_view, BroadcastEvent, EventView};
use crate::protocol::{decode, decoded, ClientIntent, Frame, FrameView, IntentView};
use crate::registry::{filed_by_id, lists_named, names_view, Registry, RegistryError};
use crate::session::{Delivery, DeliveryView, Session, SessionView};
use crate::text::joined;
use vstd::prelude::*;

verus! {

/// One of the three duties that run for a connection.
#[derive(Clone, Copy, Debug, PartialEq, Eq, Structural)]
pub enum Duty {
    /// Reads frames from the transport.
    Inbound,
    /// Writes to the transport what the session's outbound handle holds.
    Outbound,
    /// Reads the bus for the session.
    Forwarder,
}

impl Duty {
    /// The two other duties.
    pub open spec fn others(self) -> (Duty, Duty) {
        match self {
            Duty::Inbound => (Duty::Outbound, Duty::Forwarder),
            Duty::Outbound => (Duty::Inbound, Duty::Forwarder),
            Duty::Forwarder => (Duty::Inbound, Duty::Outbound),
        }
    }

    /// The two duties to cancel when this one has ended.
    pub fn rest(self) -> (r: (Duty, Duty))
        ensures
            r == self.others(),
            r.0 != self,
            r.1 != self,
            r.0 != r.1,
    {
        match self {
            Duty::Inbound => (Duty::Outbound, Duty::Forwarder),
            Duty::Outbound => (Duty::Inbound, Duty::Forwarder),
            Duty::Forwarder => (Duty::Inbound, Duty::Outbound),
        }
    }
}

/// Where a connection stands in its life.
#[derive(Clone, Copy, Debug, PartialEq, Eq, Structural)]
pub enum Phase {
    /// Registered, without a name.
    Anonymous,
    /// Registered, with a name.
    Named,
    /// Not registered: torn down, or never accepted.
    Terminated,
}

impl Phase {
    /// The place of the phase in the order of a life.
    pub open spec fn rank(self) -> nat {
        match self {
            Phase::Anonymous => 0,
            Phase::Named => 1,
            Phase::Terminated => 2,
        }
    }
}

/// What the text of the notice is that a client gets for a malformed frame.
pub open spec fn malformed_notice() -> Seq<char> {
    "Malformed payload"@
}

/// What the relay did with a frame.
#[derive(Debug)]
pub enum Reaction {
    /// The frame was understood and this event went over the bus.
    Published(BroadcastEvent),
    /// The frame was malformed; the notice is for the sender alone.
    Rejected(Delivery),
    /// No session is registered under that identifier.
    Gone,
}

/// The mathematical value of a [`Reaction`].
pub enum ReactionView {
    Published(EventView),
    Rejected(DeliveryView),
    Gone,
}

impl View for Reaction {
    type V = ReactionView;

    open spec fn view(&self) -> ReactionView {
        match self {
            Reaction::Published(e) => ReactionView::Published(e@),
            Reaction::Rejected(d) => ReactionView::Rejected(d@),
            Reaction::Gone => ReactionView::Gone,
        }
    }
}

/// What the relay did with a call of the command protocol.
#[derive(Debug)]
pub struct CallReaction {
    /// The answer, for the caller alone.
    pub reply: ClientCall,
    /// The event that went over the bus, if the call caused one.
    pub published: Option<BroadcastEvent>,
}

/// Whether `call` is the command that asks for the list of names.
pub open spec fn asks_names(call: ServerCallView) -> bool {
    call matches ServerCallView::Command { command, .. } && asks_for_names(command)
}

/// What the forwarder duty gets when it asks for the session's next event.
#[derive(Debug)]
pub enum Forwarded {
    /// Render this and hand it to the client.
    Deliver(Delivery),
    /// An event was read and withheld: the session is anonymous.
    Suppressed,
    /// The session fell behind and that many events are lost to it.
    Gap(u64),
    /// Nothing to read for now.
    Idle,
    /// No session is registered under that identifier.
    Gone,
}

/// The mathematical value of a [`Forwarded`].
pub enum ForwardedView {
    Deliver(DeliveryView),
    Suppressed,
    Gap(nat),
    Idle,
    Gone,
}

impl View for Forwarded {
    type V = ForwardedView;

    open spec fn view(&self) -> ForwardedView {
        match self {
            Forwarded::Deliver(d) => ForwardedView::Deliver(d@),
            Forwarded::Suppressed => ForwardedView::Suppressed,
            Forwarded::Gap(n) => ForwardedView::Gap(*n as nat),
            Forwarded::Idle => ForwardedView::Idle,
            Forwarded::Gone => ForwardedView::Gone,
        }
    }
}

/// What is left to do for a connection once it was torn down.
#[derive(Debug)]
pub struct Teardown<H> {
    /// The duties to cancel: the two that did not end first.
    pub cancel: (Duty, Duty),
    /// The leave that went over the bus, if the session had a name.
    pub leave: Option<BroadcastEvent>,
    /// The session's outbound handle; dropping it ends the outbound duty.
    pub outbound: H,
}

/// The mathematical value of a [`Teardown`].
pub struct TeardownView<H> {
    pub cancel: (Duty, Duty),
    pub leave: Option<EventView>,
    pub outbound: H,
}

impl<H> View for Teardown<H> {
    type V = TeardownView<H>;

    open spec fn view(&self) -> TeardownView<H> {
        TeardownView {
            cancel: self.cancel,
            leave: event_view(self.leave),
            outbound: self.outbound,
        }
    }
}

/// The value of an optional teardown.
pub open spec fn teardown_view<H>(t: Option<Teardown<H>>) -> Option<TeardownView<H>> {
    match t {
        Some(t) => Some(t@),
        None => None,
    }
}

/// The mathematical value of a [`Relay`]: the sessions by their identifiers
/// and the bus.
pub struct RelayView<H> {
    pub sessions: Map<u128, SessionView<H>>,
    pub bus: BusView,
}

impl<H> RelayView<H> {
    /// Sessions are filed under their identifiers, there are finitely many of
    /// them, and the bus is valid.
    pub open spec fn valid(self) -> bool {
        &&& filed_by_id(self.sessions)
        &&& self.sessions.dom().finite()
        &&& self.bus.valid()
    }

    /// Where the connection under `id` stands.
    pub open spec fn phase(self, id: u128) -> Phase {
        if !self.sessions.contains_key(id) {
            Phase::Terminated
        } else if self.sessions[id].is_named() {
            Phase::Named
        } else {
            Phase::Anonymous
        }
    }

    /// One more event can be numbered on the bus.
    pub open spec fn can_publish(self) -> bool {
        self.bus.published() < u64::MAX
    }

    /// One more delivery to the session under `id` can be numbered.
    pub open spec fn can_deliver(self, id: u128) -> bool {
        self.sessions.contains_key(id) ==> self.sessions[id].delivered < u64::MAX
    }

    /// The relay after a connection was accepted under `id`: a new anonymous
    /// session that reads the bus from now on. Nothing changes if the
    /// identifier is taken.
    pub open spec fn connected(self, id: u128, outbound: H) -> RelayView<H> {
        if self.sessions.contains_key(id) {
            self
        } else {
            RelayView {
                sessions: self.sessions.insert(
                    id,
                    SessionView {
                        id,
                        name: None,
                        delivered: 0,
                        cursor: self.bus.published(),
                        outbound,
                    },
                ),
                ..self
            }
        }
    }

    /// What the relay does with `frame` from the session under `id`.
    pub open spec fn reaction(self, id: u128, frame: FrameView) -> ReactionView {
        if !self.sessions.contains_key(id) {
            ReactionView::Gone
        } else {
            match decoded(frame) {
                Ok(IntentView::DeclareOrSend(text)) => ReactionView::Published(
                    self.sessions[id].said(text),
                ),
                Err(_) => ReactionView::Rejected(
                    self.sessions[id].delivery(error_event(malformed_notice())),
                ),
            }
        }
    }

    /// The relay after `frame` came from the session under `id`.
    pub open spec fn after_frame(self, id: u128, frame: FrameView) -> RelayView<H> {
        if !self.sessions.contains_key(id) {
            self
        } else {
            match decoded(frame) {
                Ok(IntentView::DeclareOrSend(text)) => self.after_saying(id, text),
                Err(_) => RelayView {
                    sessions: self.sessions.insert(id, self.sessions[id].after_delivery()),
                    ..self
                },
            }
        }
    }

    /// The relay after the session under `id`, which is registered, said
    /// `text`: the session has a name from now on, and what it said is on
    /// the bus.
    pub open spec fn after_saying(self, id: u128, text: Seq<char>) -> RelayView<H> {
        RelayView {
            sessions: self.sessions.insert(
                id,
                self.sessions[id].after_saying(text, self.bus.published()),
            ),
            bus: self.bus.publish(self.sessions[id].said(text)),
        }
    }

    /// The text that `call` makes the session under `id` say on the bus: the
    /// name of a `Connect` from an anonymous session and the content of a
    /// `Send` from a named one. No other call says anything.
    pub open spec fn call_text(self, id: u128, call: ServerCallView) -> Option<Seq<char>> {
        if !self.sessions.contains_key(id) {
            None
        } else {
            match call {
                ServerCallView::Connect { username } => if self.sessions[id].is_named() {
                    None
                } else {
                    Some(username)
                },
                ServerCallView::Send { content } => if self.sessions[id].is_named() {
                    Some(content)
                } else {
                    None
                },
                _ => None,
            }
        }
    }

    /// The event that `call` from the session under `id` puts on the bus.
    pub open spec fn call_event(self, id: u128, call: ServerCallView) -> Option<EventView> {
        match self.call_text(id, call) {
            Some(text) => Some(self.sessions[id].said(text)),
            None => None,
        }
    }

    /// The relay after `call` came from the session under `id`.
    pub open spec fn after_call(self, id: u128, call: ServerCallView) -> RelayView<H> {
        match self.call_text(id, call) {
            Some(text) => self.after_saying(id, text),
            None => self,
        }
    }

    /// What the server answers to `call` from the session under `id`, which
    /// is registered; `names` are the names of the named sessions, which
    /// only the command `connected` reads.
    pub open spec fn call_reply(
        self,
        id: u128,
        call: ServerCallView,
        names: Seq<Seq<char>>,
    ) -> ClientCallView {
        match call {
            ServerCallView::Connect { username } => if self.sessions[id].is_named() {
                ClientCallView::Error("Client already connected with username"@)
            } else {
                ClientCallView::Okay("Successfully joined as "@ + username)
            },
            ServerCallView::Send { content } => if self.sessions[id].is_named() {
                ClientCallView::Okay("Message successfully sent"@)
            } else {
                ClientCallView::Error("Client not connected with username"@)
            },
            ServerCallView::Command { command, args } => ClientCallView::Notification(
                command_reply(id, command, names),
            ),
            ServerCallView::Notification(t) => ClientCallView::Notification(t),
            ServerCallView::Okay(t) => ClientCallView::Okay(t),
            ServerCallView::Error(t) => ClientCallView::Error(t),
        }
    }

    /// What the forwarder of the session under `id` gets.
    pub open spec fn forwarded(self, id: u128) -> ForwardedView {
        if !self.sessions.contains_key(id) {
            ForwardedView::Gone
        } else {
            let session = self.sessions[id];
            match self.bus.poll(session.cursor) {
                ReceivedView::Empty => ForwardedView::Idle,
                ReceivedView::Lagged(n) => ForwardedView::Gap(n),
                ReceivedView::Event(event) => match session.offered(event) {
                    Some(d) => ForwardedView::Deliver(d),
                    None => ForwardedView::Suppressed,
                },
            }
        }
    }

    /// The relay after the forwarder of the session under `id` was served.
    pub open spec fn after_forward(self, id: u128) -> RelayView<H> {
        if !self.sessions.contains_key(id) {
            self
        } else {
            let session = self.sessions[id];
            let moved = SessionView { cursor: self.bus.advance(session.cursor), ..session };
            match self.bus.poll(session.cursor) {
                ReceivedView::Event(_) => RelayView {
                    sessions: self.sessions.insert(id, moved.after_offer()),
                    ..self
                },
                _ => RelayView { sessions: self.sessions.insert(id, moved), ..self },
            }
        }
    }

    /// What is left to do when the duty `trigger` of the connection under
    /// `id` has ended: nothing if the connection was torn down before.
    pub open spec fn teardown(self, id: u128, trigger: Duty) -> Option<TeardownView<H>> {
        if !self.sessions.contains_key(id) {
            None
        } else {
            Some(
                TeardownView {
                    cancel: trigger.others(),
                    leave: self.sessions[id].farewell(),
                    outbound: self.sessions[id].outbound,
                },
            )
        }
    }

    /// The relay after the connection under `id` was torn down: the session
    /// is gone, and its leave, if it had a name, is on the bus.
    pub open spec fn after_teardown(self, id: u128) -> RelayView<H> {
        if !self.sessions.contains_key(id) {
            self
        } else {
            RelayView {
                sessions: self.sessions.remove(id),
                bus: match self.sessions[id].farewell() {
                    Some(leave) => self.bus.publish(leave),
                    None => self.bus,
                },
            }
        }
    }
}

/// Calls `uuid::Uuid::new_v4` and `uuid::Uuid::as_u128`: the bits of a
/// random identifier. Nothing is claimed of the number.
#[verifier::external_body]
fn fresh_id() -> u128 {
    uuid::Uuid::new_v4().as_u128()
}

/// The registry of sessions and the broadcast bus of one process.
pub struct Relay<H> {
    registry: Registry<H>,
    bus: Bus,
}

impl<H> View for Relay<H> {
    type V = RelayView<H>;

    closed spec fn view(&self) -> RelayView<H> {
        RelayView { sessions: self.registry@, bus: self.bus@ }
    }
}

impl<H> Relay<H> {
    /// The registry and the bus are well formed.
    pub closed spec fn wf(&self) -> bool {
        self.registry.wf() && self.bus.wf()
    }

    /// A well-formed relay has a valid value.
    pub proof fn lemma_wf_valid(&self)
        requires
            self.wf(),
        ensures
            self@.valid(),
    {
        self.registry.lemma_wf();
        self.bus.lemma_wf_valid();
    }

    /// A relay without sessions whose bus retains up to `capacity` events.
    pub fn new(capacity: usize) -> (r: Self)
        requires
            capacity >= 1,
        ensures
            r.wf(),
            r@ == (RelayView {
                sessions: Map::<u128, SessionView<H>>::empty(),
                bus: BusView { capacity: capacity as nat, first: 0, retained: Seq::empty() },
            }),
    {
        Relay { registry: Registry::new(), bus: Bus::new(capacity) }
    }

    /// A relay without sessions whose bus retains the default number of
    /// events.
    pub fn with_default_capacity() -> (r: Self)
        ensures
            r.wf(),
            r@ == (RelayView {
                sessions: Map::<u128, SessionView<H>>::empty(),
                bus: BusView {
                    capacity: crate::DEFAULT_CAPACITY as nat,
                    first: 0,
                    retained: Seq::empty(),
                },
            }),
    {
        Relay::new(crate::DEFAULT_CAPACITY)
    }

    /// Whether one more event can be numbered on the bus.
    pub fn can_publish(&self) -> (r: bool)
        requires
            self.wf(),
        ensures
            r == self@.can_publish(),
    {
        self.bus.has_room()
    }

    /// Whether one more delivery to the session under `id` can be numbered.
    pub fn can_deliver(&self, id: u128) -> (r: bool)
        requires
            self.wf(),
        ensures
            r == self@.can_deliver(id),
    {
        match self.registry.lookup(id) {
            Ok(session) => session.delivered() < u64::MAX,
            Err(_) => true,
        }
    }

    /// The number of events published so far.
    pub fn published(&self) -> (r: u64)
        requires
            self.wf(),
        ensures
            r == self@.bus.published(),
    {
        self.bus.published()
    }

    /// Registers a new, anonymous session under `id` and subscribes it to
    /// the bus. Fails with `DuplicateId`, and changes nothing, exactly when
    /// the identifier is taken.
    pub fn connect(&mut self, id: u128, outbound: H) -> (r: Result<(), RegistryError>)
        requires
            old(self).wf(),
        ensures
            final(self).wf(),
            final(self)@ == old(self)@.connected(id, outbound),
            r == if old(self)@.sessions.contains_key(id) {
                Err::<(), RegistryError>(RegistryError::DuplicateId)
            } else {
                Ok::<(), RegistryError>(())
            },
    {
        let session = Session::new(id, outbound, self.bus.subscribe());
        self.registry.insert(session)
    }

    /// Accepts a connection under a fresh random identifier and returns the
    /// identifier. Fails with `DuplicateId`, and changes nothing, if the
    /// identifier drawn is taken; so it cannot fail while no session is
    /// registered.
    pub fn accept(&mut self, outbound: H) -> (r: Result<u128, RegistryError>)
        requires
            old(self).wf(),
        ensures
            final(self).wf(),
            match r {
                Ok(id) => !old(self)@.sessions.contains_key(id) && final(self)@ == old(
                    self,
                )@.connected(id, outbound),
                Err(e) => e == RegistryError::DuplicateId && final(self)@ == old(self)@,
            },
            r is Err ==> exists|id: u128| old(self)@.sessions.contains_key(id),
            old(self)@.sessions.dom() == Set::<u128>::empty() ==> r is Ok,
    {
        let id = fresh_id();
        match self.connect(id, outbound) {
            Ok(()) => Ok(id),
            Err(e) => Err(e),
        }
    }

    /// Where the connection under `id` stands.
    pub fn phase(&self, id: u128) -> (r: Phase)
        ensures
            r == self@.phase(id),
    {
        match self.registry.lookup(id) {
            Ok(session) => if session.is_named() {
                Phase::Named
            } else {
                Phase::Anonymous
            },
            Err(_) => Phase::Terminated,
        }
    }

    /// The session under `id`, or `NotFound`.
    pub fn lookup(&self, id: u128) -> (r: Result<&Session<H>, RegistryError>)
        ensures
            match r {
                Ok(s) => self@.sessions.contains_key(id) && self@.sessions[id] == s@,
                Err(e) => e == RegistryError::NotFound && !self@.sessions.contains_key(id),
            },
    {
        self.registry.lookup(id)
    }

    /// The names of the sessions that are named now: one entry for each
    /// named session, in no particular order.
    pub fn snapshot_named(&self) -> (r: Vec<String>)
        ensures
            exists|ids: Seq<u128>| #[trigger] lists_named(self@.sessions, ids, names_view(r@)),
    {
        let names = self.registry.snapshot_named();
        proof {
            let ids = choose|ids: Seq<u128>| #[trigger]
                lists_named(self.registry@, ids, names_view(names@));
            assert(lists_named(self@.sessions, ids, names_view(names@)));
        }
        names
    }

    /// Takes one inbound frame from the session under `id`.
    ///
    /// A frame that decodes to a text is the session's name if it has none,
    /// and a join goes over the bus; otherwise the text goes over the bus as
    /// a message of that session. A malformed frame changes nothing but the
    /// count of deliveries: the sender alone is handed an error notice.
    pub fn handle_frame(&mut self, id: u128, frame: &Frame) -> (r: Reaction)
        requires
            old(self).wf(),
            old(self)@.can_publish(),
            old(self)@.can_deliver(id),
        ensures
            final(self).wf(),
            r@ == old(self)@.reaction(id, frame@),
            final(self)@ == old(self)@.after_frame(id, frame@),
    {
        if !self.registry.contains(id) {
            return Reaction::Gone;
        }
        match decode(frame) {
            Ok(ClientIntent::DeclareOrSend(text)) => Reaction::Published(self.utter(id, text)),
            Err(_) => self.reject(id),
        }
    }

    /// Hands the session under `id` the notice of a malformed frame.
    fn reject(&mut self, id: u128) -> (r: Reaction)
        requires
            old(self).wf(),
            old(self)@.can_deliver(id),
            old(self)@.sessions.contains_key(id),
        ensures
            final(self).wf(),
            r@ == ReactionView::Rejected(
                old(self)@.sessions[id].delivery(error_event(malformed_notice())),
            ),
            final(self)@ == (RelayView {
                sessions: old(self)@.sessions.insert(id, old(self)@.sessions[id].after_delivery()),
                ..old(self)@
            }),
    {
        match self.registry.remove(id) {
            None => Reaction::Gone,
            Some(mut session) => {
                let notice = BroadcastEvent::error("Malformed payload".to_owned());
                let delivery = session.notify(notice);
                let ghost put = session@;
                let _ = self.registry.insert(session);
                assert(self@.sessions =~= old(self)@.sessions.insert(id, put));
                Reaction::Rejected(delivery)
            },
        }
    }

    /// Lets the session under `id` say `text`: names it if it had no name,
    /// and publishes the join or the message.
    fn utter(&mut self, id: u128, text: String) -> (r: BroadcastEvent)
        requires
            old(self).wf(),
            old(self)@.can_publish(),
            old(self)@.sessions.contains_key(id),
        ensures
            final(self).wf(),
            r@ == old(self)@.sessions[id].said(text@),
            final(self)@ == old(self)@.after_saying(id, text@),
    {
        match self.registry.remove(id) {
            None => BroadcastEvent::join(text),
            Some(mut session) => {
                let now = self.bus.subscribe();
                let event = session.speak(text, now);
                self.bus.publish(event.clone());
                let ghost put = session@;
                let _ = self.registry.insert(session);
                assert(self@.sessions =~= old(self)@.sessions.insert(id, put));
                event
            },
        }
    }

    /// Takes one call of the command protocol from the session under `id`;
    /// returns nothing, and changes nothing, if no such session is
    /// registered.
    ///
    /// `Connect` names an anonymous session and publishes its join; from a
    /// named session it is refused, for a name is set once. `Send` publishes
    /// a message of a named session and is refused from an anonymous one.
    /// A command is answered with a notice and the other calls are echoed;
    /// none of them changes the relay.
    pub fn handle_call(&mut self, id: u128, call: ServerCall) -> (r: Option<CallReaction>)
        requires
            old(self).wf(),
            old(self)@.can_publish(),
        ensures
            final(self).wf(),
            final(self)@ == old(self)@.after_call(id, call@),
            r is Some <==> old(self)@.sessions.contains_key(id),
            r matches Some(reaction) ==> {
                &&& event_view(reaction.published) == old(self)@.call_event(id, call@)
                &&& !asks_names(call@) ==> reaction.reply@ == old(self)@.call_reply(
                    id,
                    call@,
                    Seq::empty(),
                )
                &&& asks_names(call@) ==> exists|ids: Seq<u128>, names: Seq<Seq<char>>|
                    #[trigger] lists_named(old(self)@.sessions, ids, names) && reaction.reply@
                        == old(self)@.call_reply(id, call@, names)
            },
    {
        let named = match self.registry.lookup(id) {
            Ok(session) => session.is_named(),
            Err(_) => {
                return None;
            },
        };
        let reaction = match call {
            ServerCall::Connect { username } => {
                if named {
                    CallReaction {
                        reply: ClientCall::Error("Client already connected with username".to_owned()),
                        published: None,
                    }
                } else {
                    let reply = ClientCall::Okay(
                        joined("Successfully joined as ", username.as_str()),
                    );
                    CallReaction { reply, published: Some(self.utter(id, username)) }
                }
            },
            ServerCall::Send { content } => {
                if named {
                    CallReaction {
                        reply: ClientCall::Okay("Message successfully sent".to_owned()),
                        published: Some(self.utter(id, content)),
                    }
                } else {
                    CallReaction {
                        reply: ClientCall::Error("Client not connected with username".to_owned()),
                        published: None,
                    }
                }
            },
            ServerCall::Command { command, args } => {
                let kind = classify_command(command.as_str());
                let names = match kind {
                    CommandKind::Connected => self.registry.snapshot_named(),
                    _ => Vec::new(),
                };
                let reply = ClientCall::Notification(answer_command(id, kind, &names));
                proof {
                    reveal_strlit("help");
                    reveal_strlit("uuid");
                    reveal_strlit("connected");
                    assert(names_view(names@).len() == names@.len());
                    assert("help"@.len() == 4 && "uuid"@.len() == 4 && "connected"@.len() == 9);
                    assert(asks_names(call@) <==> kind == CommandKind::Connected);
                    if kind != CommandKind::Connected {
                        assert(names_view(names@) =~= Seq::<Seq<char>>::empty());
                        assert(reply@ == old(self)@.call_reply(id, call@, Seq::empty()));
                    }
                    if kind == CommandKind::Connected {
                        let ids = choose|ids: Seq<u128>| #[trigger]
                            lists_named(self.registry@, ids, names_view(names@));
                        assert(lists_named(old(self)@.sessions, ids, names_view(names@)));
                        let listed = names_view(names@);
                        assert(reply@ == old(self)@.call_reply(id, call@, listed));
                        assert(exists|ids: Seq<u128>, names: Seq<Seq<char>>|
                            #[trigger] lists_named(old(self)@.sessions, ids, names) && reply@
                                == old(self)@.call_reply(id, call@, names));
                    }
                }
                CallReaction { reply, published: None }
            },
            ServerCall::Notification(t) => CallReaction {
                reply: ClientCall::Notification(t),
                published: None,
            },
            ServerCall::Okay(t) => CallReaction { reply: ClientCall::Okay(t), published: None },
            ServerCall::Error(t) => CallReaction { reply: ClientCall::Error(t), published: None },
        };
        Some(reaction)
    }

    /// Serves the forwarder of the session under `id`: reads the session's
    /// next event from the bus. A named session is handed the event with its
    /// sequence number; from an anonymous one it is withheld.
    pub fn forward(&mut self, id: u128) -> (r: Forwarded)
        requires
            old(self).wf(),
            old(self)@.can_deliver(id),
        ensures
            final(self).wf(),
            r@ == old(self)@.forwarded(id),
            final(self)@ == old(self)@.after_forward(id),
    {
        match self.registry.remove(id) {
            None => {
                assert(self@.sessions =~= old(self)@.sessions);
                Forwarded::Gone
            },
            Some(mut session) => {
                let forwarded = match session.poll(&self.bus) {
                    Received::Empty => Forwarded::Idle,
                    Received::Lagged(n) => Forwarded::Gap(n),
                    Received::Event(event) => match session.offer(event) {
                        Some(delivery) => Forwarded::Deliver(delivery),
                        None => Forwarded::Suppressed,
                    },
                };
                let ghost put = session@;
                let _ = self.registry.insert(session);
                assert(self@.sessions =~= old(self)@.sessions.insert(id, put));
                forwarded
            },
        }
    }

    /// Tears the connection under `id` down because its duty `trigger` has
    /// ended. The first call removes the session, publishes its leave if it
    /// had a name, and names the two duties to cancel; any later call finds
    /// nothing to do and changes nothing.
    pub fn teardown(&mut self, id: u128, trigger: Duty) -> (r: Option<Teardown<H>>)
        requires
            old(self).wf(),
            old(self)@.phase(id) == Phase::Named ==> old(self)@.can_publish(),
        ensures
            final(self).wf(),
            teardown_view(r) == old(self)@.teardown(id, trigger),
            final(self)@ == old(self)@.after_teardown(id),
    {
        match self.registry.remove(id) {
            None => {
                assert(self@.sessions =~= old(self)@.sessions);
                None
            },
            Some(session) => {
                let (leave, outbound) = session.close();
                match &leave {
                    Some(event) => {
                        self.bus.publish(event.clone());
                    },
                    None => {},
                }
                Some(Teardown { cancel: trigger.rest(), leave, outbound })
            },
        }
    }
}

} // verus!
