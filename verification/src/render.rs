//! How an event is shown: the parts of the block of markup that stands for
//! it in a client's history.

use crate::event::{BroadcastEvent, BroadcastEventType, EventView};
use crate::text::joined;
use vstd::prelude::*;

verus! {

/// The icons that a block may carry.
#[derive(Clone, Copy, Debug, PartialEq, Eq, Structural)]
pub enum Icon {
    BellAlert,
    UserPlus,
    UserMinus,
    Check,
    XMark,
    ChatBubbleBottomCenterText,
}

/// The parts of the block that shows one event.
#[derive(Debug)]
pub struct HtmxBlock {
    /// The icon in front of the sender.
    pub icon: Icon,
    /// The slot of the block in the client's history.
    pub index: usize,
    /// The style classes of the sender's name.
    pub prefix: String,
    /// Who speaks.
    pub sender: String,
    /// What is said.
    pub content: String,
}

/// The mathematical value of an [`HtmxBlock`].
pub struct BlockView {
    pub icon: Icon,
    pub index: nat,
    pub prefix: Seq<char>,
    pub sender: Seq<char>,
    pub content: Seq<char>,
}

impl View for HtmxBlock {
    type V = BlockView;

    open spec fn view(&self) -> BlockView {
        BlockView {
            icon: self.icon,
            index: self.index as nat,
            prefix: self.prefix@,
            sender: self.sender@,
            content: self.content@,
        }
    }
}

/// The icon for each kind of event.
pub open spec fn icon_of(kind: BroadcastEventType) -> Icon {
    match kind {
        BroadcastEventType::Alert => Icon::BellAlert,
        BroadcastEventType::Join => Icon::UserPlus,
        BroadcastEventType::Leave => Icon::UserMinus,
        BroadcastEventType::Okay => Icon::Check,
        BroadcastEventType::Error => Icon::XMark,
        BroadcastEventType::Message => Icon::ChatBubbleBottomCenterText,
    }
}

/// The style classes for each kind of event.
pub open spec fn prefix_of(kind: BroadcastEventType) -> Seq<char> {
    match kind {
        BroadcastEventType::Alert => "text-orange-400"@,
        BroadcastEventType::Join => "text-orange-400"@,
        BroadcastEventType::Leave => "text-orange-400"@,
        BroadcastEventType::Okay => "text-blue-400"@,
        BroadcastEventType::Error => "text-red-500 font-bold"@,
        BroadcastEventType::Message => "text-emerald-700"@,
    }
}

/// The text shown for an event: its content, with ` joined` after the name
/// of a join and ` left` after that of a leave. A missing content is empty.
pub open spec fn shown_content(event: EventView) -> Seq<char> {
    let content = match event.content {
        Some(t) => t,
        None => Seq::empty(),
    };
    match event.event {
        BroadcastEventType::Join => content + " joined"@,
        BroadcastEventType::Leave => content + " left"@,
        _ => content,
    }
}

/// The sender shown for an event: `Server` where the event names none.
pub open spec fn shown_sender(event: EventView) -> Seq<char> {
    match event.sender {
        Some(s) => s,
        None => "Server"@,
    }
}

/// The block that shows `event` in the slot `index`.
pub open spec fn block_of(event: EventView, index: nat) -> BlockView {
    BlockView {
        icon: icon_of(event.event),
        index,
        prefix: prefix_of(event.event),
        sender: shown_sender(event),
        content: shown_content(event),
    }
}

impl BroadcastEvent {
    /// The parts of the block of markup that shows the event in the slot
    /// `index` of a client's history.
    pub fn into_htmx(self, index: usize) -> (r: HtmxBlock)
        ensures
            r@ == block_of(self@, index as nat),
    {
        let sender = match self.sender {
            Some(s) => s,
            None => "Server".to_owned(),
        };
        let content = match self.content {
            Some(t) => t,
            None => String::new(),
        };
        match self.event {
            BroadcastEventType::Alert => HtmxBlock {
                icon: Icon::BellAlert,
                index,
                prefix: "text-orange-400".to_owned(),
                sender,
                content,
            },
            BroadcastEventType::Join => HtmxBlock {
                icon: Icon::UserPlus,
                index,
                prefix: "text-orange-400".to_owned(),
                sender,
                content: joined(content.as_str(), " joined"),
            },
            BroadcastEventType::Leave => HtmxBlock {
                icon: Icon::UserMinus,
                index,
                prefix: "text-orange-400".to_owned(),
                sender,
                content: joined(content.as_str(), " left"),
            },
            BroadcastEventType::Okay => HtmxBlock {
                icon: Icon::Check,
                index,
                prefix: "text-blue-400".to_owned(),
                sender,
                content,
            },
            BroadcastEventType::Error => HtmxBlock {
                icon: Icon::XMark,
                index,
                prefix: "text-red-500 font-bold".to_owned(),
                sender,
                content,
            },
            BroadcastEventType::Message => HtmxBlock {
                icon: Icon::ChatBubbleBottomCenterText,
                index,
                prefix: "text-emerald-700".to_owned(),
                sender,
                content,
            },
        }
    }
}

} // verus!
