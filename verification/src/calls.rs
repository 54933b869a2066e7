//! The calls of the command protocol: what a client may ask of the server
//! by name, and what the server tells a client.
//!
//! In this protocol a client declares its name with an explicit `Connect`
//! and speaks with `Send`; the server answers each call to the caller alone
//! and tells every client of joins, leaves and messages.

use crate::event::{BroadcastEvent, BroadcastEventType, EventView};
use crate::protocol::{Frame, FrameView};
use crate::text::{decimal, hexadecimal, joined, lowercase, lowercased, numeral_of};
use vstd::prelude::*;

verus! {

/// A call from a client to the server.
#[derive(Debug)]
pub enum ServerCall {
    /// Join under this name.
    Connect { username: String },
    /// Say this to everybody.
    Send { content: String },
    /// Run a command of the server.
    Command { command: String, args: Vec<String> },
    /// A notice, echoed to the caller.
    Notification(String),
    /// A confirmation, echoed to the caller.
    Okay(String),
    /// An error, echoed to the caller.
    Error(String),
}

/// The mathematical value of a [`ServerCall`].
pub enum ServerCallView {
    Connect { username: Seq<char> },
    Send { content: Seq<char> },
    Command { command: Seq<char>, args: Seq<Seq<char>> },
    Notification(Seq<char>),
    Okay(Seq<char>),
    Error(Seq<char>),
}

impl View for ServerCall {
    type V = ServerCallView;

    open spec fn view(&self) -> ServerCallView {
        match self {
            ServerCall::Connect { username } => ServerCallView::Connect { username: username@ },
            ServerCall::Send { content } => ServerCallView::Send { content: content@ },
            ServerCall::Command { command, args } => ServerCallView::Command {
                command: command@,
                args: args@.map_values(|a: String| a@),
            },
            ServerCall::Notification(t) => ServerCallView::Notification(t@),
            ServerCall::Okay(t) => ServerCallView::Okay(t@),
            ServerCall::Error(t) => ServerCallView::Error(t@),
        }
    }
}

/// A call from the server to a client.
#[derive(Debug)]
pub enum ClientCall {
    /// Somebody said something.
    PushMessage { sender: String, content: String },
    /// Somebody joined.
    Connection { username: String },
    /// Somebody left.
    Disconnection { username: String },
    /// The identifier under which the server knows the client.
    Uuid(u128),
    /// A notice of the server.
    Notification(String),
    /// A confirmation.
    Okay(String),
    /// An error.
    Error(String),
}

/// The mathematical value of a [`ClientCall`].
pub enum ClientCallView {
    PushMessage { sender: Seq<char>, content: Seq<char> },
    Connection { username: Seq<char> },
    Disconnection { username: Seq<char> },
    Uuid(u128),
    Notification(Seq<char>),
    Okay(Seq<char>),
    Error(Seq<char>),
}

impl View for ClientCall {
    type V = ClientCallView;

    open spec fn view(&self) -> ClientCallView {
        match self {
            ClientCall::PushMessage { sender, content } => ClientCallView::PushMessage {
                sender: sender@,
                content: content@,
            },
            ClientCall::Connection { username } => ClientCallView::Connection {
                username: username@,
            },
            ClientCall::Disconnection { username } => ClientCallView::Disconnection {
                username: username@,
            },
            ClientCall::Uuid(id) => ClientCallView::Uuid(*id),
            ClientCall::Notification(t) => ClientCallView::Notification(t@),
            ClientCall::Okay(t) => ClientCallView::Okay(t@),
            ClientCall::Error(t) => ClientCallView::Error(t@),
        }
    }
}

/// The value of an optional server call.
pub open spec fn server_call_view(call: Option<ServerCall>) -> Option<ServerCallView> {
    match call {
        Some(c) => Some(c@),
        None => None,
    }
}

impl ServerCallView {
    /// The call as one line of text: its kind, a colon and what it carries.
    pub open spec fn description(self) -> Seq<char> {
        match self {
            ServerCallView::Connect { username } => "connect: "@ + username,
            ServerCallView::Send { content } => "send: "@ + content,
            ServerCallView::Command { command, args } => "command: "@ + command,
            ServerCallView::Notification(t) => "notification: "@ + t,
            ServerCallView::Okay(t) => "ok: "@ + t,
            ServerCallView::Error(t) => "error: "@ + t,
        }
    }

    /// What a client sends for the text that its user entered: nothing for
    /// an empty text, its name if it has none yet, else a message.
    pub open spec fn composed(named: bool, input: Seq<char>) -> Option<ServerCallView> {
        if input.len() == 0 {
            None
        } else if named {
            Some(ServerCallView::Send { content: input })
        } else {
            Some(ServerCallView::Connect { username: input })
        }
    }
}

impl ClientCallView {
    /// The call as one line of text: its kind, a colon and what it carries.
    pub open spec fn description(self) -> Seq<char> {
        match self {
            ClientCallView::PushMessage { sender, content } => "push message: "@ + sender + " | "@
                + content,
            ClientCallView::Connection { username } => "connection: "@ + username,
            ClientCallView::Disconnection { username } => "disconnection: "@ + username,
            ClientCallView::Uuid(id) => "uuid: "@ + numeral_of(id as nat, 16),
            ClientCallView::Notification(t) => "notification: "@ + t,
            ClientCallView::Okay(t) => "ok: "@ + t,
            ClientCallView::Error(t) => "error: "@ + t,
        }
    }

    /// Whether a client shows the call to its user: all but confirmations.
    pub open spec fn is_shown(self) -> bool {
        !(self is Okay)
    }

    /// The call by which a client is told of `event`. A missing text is the
    /// empty text, and a message without a sender is the server's.
    pub open spec fn of_event(event: EventView) -> ClientCallView {
        let content = match event.content {
            Some(t) => t,
            None => Seq::empty(),
        };
        match event.event {
            BroadcastEventType::Join => ClientCallView::Connection { username: content },
            BroadcastEventType::Leave => ClientCallView::Disconnection { username: content },
            BroadcastEventType::Message => ClientCallView::PushMessage {
                sender: match event.sender {
                    Some(s) => s,
                    None => "Server"@,
                },
                content,
            },
            BroadcastEventType::Alert => ClientCallView::Notification(content),
            BroadcastEventType::Okay => ClientCallView::Okay(content),
            BroadcastEventType::Error => ClientCallView::Error(content),
        }
    }
}

/// A frame that carries no text, as the transport tells of it.
#[derive(Clone, Copy, Debug, PartialEq, Eq, Structural)]
pub enum Signal {
    /// The client asks whether the server is there.
    Ping,
    /// The client closes the connection.
    Close,
    /// Any other frame without text.
    Other,
}

/// What a frame signals: nothing if it carries text, else its kind.
pub open spec fn signal_of(frame: FrameView) -> Option<Signal> {
    match frame {
        FrameView::Text(_) => None,
        FrameView::Ping(_) => Some(Signal::Ping),
        FrameView::Close => Some(Signal::Close),
        _ => Some(Signal::Other),
    }
}

impl Signal {
    /// What a frame signals: nothing if it carries text, else its kind.
    pub fn of_frame(frame: &Frame) -> (r: Option<Signal>)
        ensures
            r == signal_of(frame@),
    {
        match frame {
            Frame::Text(_) => None,
            Frame::Ping(_) => Some(Signal::Ping),
            Frame::Close => Some(Signal::Close),
            _ => Some(Signal::Other),
        }
    }

    /// The call that stands for a frame without text.
    pub open spec fn call(self) -> ServerCallView {
        match self {
            Signal::Ping => ServerCallView::Okay("Pong"@),
            Signal::Close => ServerCallView::Notification("Goodbye"@),
            Signal::Other => ServerCallView::Notification("Non-text call. Ignoring processing."@),
        }
    }
}

impl ServerCall {
    /// The call as one line of text.
    pub fn describe(&self) -> (r: String)
        ensures
            r@ == self@.description(),
    {
        match self {
            ServerCall::Connect { username } => joined("connect: ", username.as_str()),
            ServerCall::Send { content } => joined("send: ", content.as_str()),
            ServerCall::Command { command, args } => joined("command: ", command.as_str()),
            ServerCall::Notification(t) => joined("notification: ", t.as_str()),
            ServerCall::Okay(t) => joined("ok: ", t.as_str()),
            ServerCall::Error(t) => joined("error: ", t.as_str()),
        }
    }

    /// The call that a client sends for the text `input` of its user.
    pub fn compose(named: bool, input: String) -> (r: Option<ServerCall>)
        ensures
            server_call_view(r) == ServerCallView::composed(named, input@),
    {
        if input.as_str().is_empty() {
            None
        } else if named {
            Some(ServerCall::Send { content: input })
        } else {
            Some(ServerCall::Connect { username: input })
        }
    }

    /// The call that stands for a frame without text.
    pub fn from_signal(signal: Signal) -> (r: ServerCall)
        ensures
            r@ == signal.call(),
    {
        match signal {
            Signal::Ping => ServerCall::Okay("Pong".to_owned()),
            Signal::Close => ServerCall::Notification("Goodbye".to_owned()),
            Signal::Other => ServerCall::Notification(
                "Non-text call. Ignoring processing.".to_owned(),
            ),
        }
    }
}

impl ClientCall {
    /// The call as one line of text.
    pub fn describe(&self) -> (r: String)
        ensures
            r@ == self@.description(),
    {
        match self {
            ClientCall::PushMessage { sender, content } => {
                let head = joined("push message: ", sender.as_str());
                let stem = joined(head.as_str(), " | ");
                joined(stem.as_str(), content.as_str())
            },
            ClientCall::Connection { username } => joined("connection: ", username.as_str()),
            ClientCall::Disconnection { username } => joined("disconnection: ", username.as_str()),
            ClientCall::Uuid(id) => joined("uuid: ", hexadecimal(*id).as_str()),
            ClientCall::Notification(t) => joined("notification: ", t.as_str()),
            ClientCall::Okay(t) => joined("ok: ", t.as_str()),
            ClientCall::Error(t) => joined("error: ", t.as_str()),
        }
    }

    /// Whether a client shows the call to its user.
    pub fn is_shown(&self) -> (r: bool)
        ensures
            r == self@.is_shown(),
    {
        match self {
            ClientCall::Okay(_) => false,
            _ => true,
        }
    }

    /// The call by which a client is told of `event`.
    pub fn from_event(event: BroadcastEvent) -> (r: ClientCall)
        ensures
            r@ == ClientCallView::of_event(event@),
    {
        let content = match event.content {
            Some(t) => t,
            None => String::new(),
        };
        match event.event {
            BroadcastEventType::Join => ClientCall::Connection { username: content },
            BroadcastEventType::Leave => ClientCall::Disconnection { username: content },
            BroadcastEventType::Message => ClientCall::PushMessage {
                sender: match event.sender {
                    Some(s) => s,
                    None => "Server".to_owned(),
                },
                content,
            },
            BroadcastEventType::Alert => ClientCall::Notification(content),
            BroadcastEventType::Okay => ClientCall::Okay(content),
            BroadcastEventType::Error => ClientCall::Error(content),
        }
    }
}

/// The names in brackets, each followed by a space.
pub open spec fn bracketed(names: Seq<Seq<char>>) -> Seq<char>
    decreases names.len(),
{
    if names.len() == 0 {
        Seq::empty()
    } else {
        bracketed(names.drop_last()) + "["@ + names.last() + "] "@
    }
}

/// The names in brackets, each followed by a space.
pub fn bracket_names(names: &Vec<String>) -> (r: String)
    ensures
        r@ == bracketed(names@.map_values(|s: String| s@)),
{
    let ghost all = names@.map_values(|s: String| s@);
    let mut r = String::new();
    let mut i: usize = 0;
    while i < names.len()
        invariant
            i <= names.len(),
            all == names@.map_values(|s: String| s@),
            r@ == bracketed(all.take(i as int)),
        decreases names.len() - i,
    {
        r.append("[");
        r.append(names[i].as_str());
        r.append("] ");
        proof {
            assert(all.take(i + 1).drop_last() =~= all.take(i as int));
            assert(all.take(i + 1).last() == names@[i as int]@);
        }
        i = i + 1;
    }
    proof {
        assert(all.take(names.len() as int) =~= all);
    }
    r
}

/// Whether the command, in lower case, asks for the list of names.
pub open spec fn asks_for_names(command: Seq<char>) -> bool {
    lowercased(command) == "connected"@
}

/// What the server answers to a command of the session `id`, given the
/// names of the named sessions. The command's name is read without regard
/// to case.
pub open spec fn command_reply(id: u128, command: Seq<char>, names: Seq<Seq<char>>) -> Seq<char> {
    let lowered = lowercased(command);
    if lowered == "help"@ {
        "Available commands: [connected] [uuid]"@
    } else if lowered == "uuid"@ {
        "Your uuid is "@ + numeral_of(id as nat, 16)
    } else if lowered == "connected"@ {
        numeral_of(names.len(), 10) + " users connected: "@ + bracketed(names)
    } else {
        "Invalid command, try the `help` command to see available commands"@
    }
}

/// Which of the server's commands a text names.
#[derive(Clone, Copy, Debug, PartialEq, Eq, Structural)]
pub enum CommandKind {
    Help,
    Uuid,
    Connected,
    Unknown,
}

/// Which command `command` names, read without regard to case.
pub open spec fn command_kind(command: Seq<char>) -> CommandKind {
    let lowered = lowercased(command);
    if lowered == "help"@ {
        CommandKind::Help
    } else if lowered == "uuid"@ {
        CommandKind::Uuid
    } else if lowered == "connected"@ {
        CommandKind::Connected
    } else {
        CommandKind::Unknown
    }
}

/// Tells which command a lower-case text names.
pub fn kind_of_lowered(lowered: &String) -> (r: CommandKind)
    ensures
        r == if lowered@ == "help"@ {
            CommandKind::Help
        } else if lowered@ == "uuid"@ {
            CommandKind::Uuid
        } else if lowered@ == "connected"@ {
            CommandKind::Connected
        } else {
            CommandKind::Unknown
        },
{
    if *lowered == "help".to_owned() {
        CommandKind::Help
    } else if *lowered == "uuid".to_owned() {
        CommandKind::Uuid
    } else if *lowered == "connected".to_owned() {
        CommandKind::Connected
    } else {
        CommandKind::Unknown
    }
}

/// Tells which command `command` names.
pub fn classify_command(command: &str) -> (r: CommandKind)
    ensures
        r == command_kind(command@),
{
    let lowered = lowercase(command);
    kind_of_lowered(&lowered)
}

/// Answers a command of the session `id`; `names` are the names of the
/// named sessions, which only the command `connected` reads.
pub fn answer_command(id: u128, kind: CommandKind, names: &Vec<String>) -> (r: String)
    ensures
        r@ == match kind {
            CommandKind::Help => "Available commands: [connected] [uuid]"@,
            CommandKind::Uuid => "Your uuid is "@ + numeral_of(id as nat, 16),
            CommandKind::Connected => numeral_of(names@.len(), 10) + " users connected: "@
                + bracketed(names@.map_values(|s: String| s@)),
            CommandKind::Unknown =>
                "Invalid command, try the `help` command to see available commands"@,
        },
{
    match kind {
        CommandKind::Help => "Available commands: [connected] [uuid]".to_owned(),
        CommandKind::Uuid => joined("Your uuid is ", hexadecimal(id).as_str()),
        CommandKind::Connected => {
            let mut r = decimal(names.len());
            r.append(" users connected: ");
            r.append(bracket_names(names).as_str());
            r
        },
        CommandKind::Unknown =>
            "Invalid command, try the `help` command to see available commands".to_owned(),
    }
}

} // verus!
