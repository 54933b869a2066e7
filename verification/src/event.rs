//! Broadcast events: the values that travel over the bus.

use vstd::prelude::*;

verus! {

/// What a broadcast event announces.
#[derive(Clone, Copy, Debug, PartialEq, Eq, Structural)]
pub enum BroadcastEventType {
    Alert,
    Join,
    Leave,
    Okay,
    Error,
    Message,
}

/// The mathematical value of a [`BroadcastEvent`]: its kind and its two
/// optional texts as sequences of characters.
pub struct EventView {
    pub event: BroadcastEventType,
    pub sender: Option<Seq<char>>,
    pub content: Option<Seq<char>>,
}

/// Server-wide broadcast event. `sender` is `None` when the server itself
/// speaks; for `Join` and `Leave` the content is the participant's name.
#[derive(Debug)]
pub struct BroadcastEvent {
    pub event: BroadcastEventType,
    pub sender: Option<String>,
    pub content: Option<String>,
}

/// The characters of an optional string.
pub open spec fn text_view(text: Option<String>) -> Option<Seq<char>> {
    match text {
        Some(s) => Some(s@),
        None => None,
    }
}

impl View for BroadcastEvent {
    type V = EventView;

    open spec fn view(&self) -> EventView {
        EventView {
            event: self.event,
            sender: text_view(self.sender),
            content: text_view(self.content),
        }
    }
}

/// The event that announces that `name` has joined.
pub open spec fn join_event(name: Seq<char>) -> EventView {
    EventView { event: BroadcastEventType::Join, sender: None, content: Some(name) }
}

/// The event that announces that `name` has left.
pub open spec fn leave_event(name: Seq<char>) -> EventView {
    EventView { event: BroadcastEventType::Leave, sender: None, content: Some(name) }
}

/// The event that carries `text` as said by `sender`.
pub open spec fn message_event(sender: Seq<char>, text: Seq<char>) -> EventView {
    EventView { event: BroadcastEventType::Message, sender: Some(sender), content: Some(text) }
}

/// The event by which the server reports `reason` to one client.
pub open spec fn error_event(reason: Seq<char>) -> EventView {
    EventView { event: BroadcastEventType::Error, sender: None, content: Some(reason) }
}

/// The value of an optional event.
pub open spec fn event_view(event: Option<BroadcastEvent>) -> Option<EventView> {
    match event {
        Some(e) => Some(e@),
        None => None,
    }
}

/// Copies an optional string.
pub fn copy_text(text: &Option<String>) -> (r: Option<String>)
    ensures
        text_view(r) == text_view(*text),
{
    match text {
        Some(s) => Some(s.clone()),
        None => None,
    }
}

impl Clone for BroadcastEvent {
    fn clone(&self) -> (r: Self)
        ensures
            r@ == self@,
    {
        BroadcastEvent {
            event: self.event,
            sender: copy_text(&self.sender),
            content: copy_text(&self.content),
        }
    }
}

impl BroadcastEvent {
    /// `name` has joined.
    pub fn join(name: String) -> (r: Self)
        ensures
            r@ == join_event(name@),
    {
        BroadcastEvent { event: BroadcastEventType::Join, sender: None, content: Some(name) }
    }

    /// `name` has left.
    pub fn leave(name: String) -> (r: Self)
        ensures
            r@ == leave_event(name@),
    {
        BroadcastEvent { event: BroadcastEventType::Leave, sender: None, content: Some(name) }
    }

    /// `sender` says `text`.
    pub fn message(sender: String, text: String) -> (r: Self)
        ensures
            r@ == message_event(sender@, text@),
    {
        BroadcastEvent {
            event: BroadcastEventType::Message,
            sender: Some(sender),
            content: Some(text),
        }
    }

    /// The server reports `reason`.
    pub fn error(reason: String) -> (r: Self)
        ensures
            r@ == error_event(reason@),
    {
        BroadcastEvent { event: BroadcastEventType::Error, sender: None, content: Some(reason) }
    }

    /// Whether the event tells of a participant: a join, a leave or a message.
    pub fn is_chatter(&self) -> (r: bool)
        ensures
            r == is_chatter(self@.event),
    {
        match self.event {
            BroadcastEventType::Join => true,
            BroadcastEventType::Leave => true,
            BroadcastEventType::Message => true,
            _ => false,
        }
    }
}

/// Joins, leaves and messages: the events that participants cause.
pub open spec fn is_chatter(kind: BroadcastEventType) -> bool {
    kind == BroadcastEventType::Join || kind == BroadcastEventType::Leave || kind
        == BroadcastEventType::Message
}

} // verus!
