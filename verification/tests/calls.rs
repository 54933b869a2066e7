use ephemeral::calls::{
    answer_command, bracket_names, classify_command, ClientCall, CommandKind, ServerCall, Signal,
};
use ephemeral::event::{BroadcastEvent, BroadcastEventType};
use ephemeral::protocol::Frame;
use ephemeral::relay::{Duty, Forwarded, Relay};

fn reply_of(relay: &mut Relay<()>, id: u128, call: ServerCall) -> (ClientCall, Option<BroadcastEvent>) {
    let reaction = relay.handle_call(id, call).expect("the session is registered");
    (reaction.reply, reaction.published)
}

fn connect(name: &str) -> ServerCall {
    ServerCall::Connect { username: name.to_string() }
}

fn send(text: &str) -> ServerCall {
    ServerCall::Send { content: text.to_string() }
}

fn command(name: &str) -> ServerCall {
    ServerCall::Command { command: name.to_string(), args: Vec::new() }
}

fn notice(reply: ClientCall) -> String {
    match reply {
        ClientCall::Notification(text) => text,
        other => panic!("no notice: {:?}", other),
    }
}

#[test]
fn server_calls_describe_themselves() {
    assert_eq!(connect("alice").describe(), "connect: alice");
    assert_eq!(send("hi all").describe(), "send: hi all");
    assert_eq!(ServerCall::Notification("n".to_string()).describe(), "notification: n");
    assert_eq!(ServerCall::Okay("fine".to_string()).describe(), "ok: fine");
    assert_eq!(ServerCall::Error("bad".to_string()).describe(), "error: bad");
    assert_eq!(command("help").describe(), "command: help");
    assert_eq!(connect("").describe(), "connect: ");
}

#[test]
fn client_calls_describe_themselves() {
    let push = ClientCall::PushMessage { sender: "alice".to_string(), content: "hi".to_string() };
    assert_eq!(push.describe(), "push message: alice | hi");
    assert_eq!(
        ClientCall::Connection { username: "alice".to_string() }.describe(),
        "connection: alice"
    );
    assert_eq!(
        ClientCall::Disconnection { username: "alice".to_string() }.describe(),
        "disconnection: alice"
    );
    assert_eq!(ClientCall::Notification("n".to_string()).describe(), "notification: n");
    assert_eq!(ClientCall::Okay("fine".to_string()).describe(), "ok: fine");
    assert_eq!(ClientCall::Error("bad".to_string()).describe(), "error: bad");
}

#[test]
fn client_composes_connect_first_and_send_afterwards() {
    assert!(ServerCall::compose(false, String::new()).is_none());
    assert!(ServerCall::compose(true, String::new()).is_none());
    match ServerCall::compose(false, "alice".to_string()) {
        Some(ServerCall::Connect { username }) => assert_eq!(username, "alice"),
        other => panic!("{:?}", other),
    }
    match ServerCall::compose(true, "hi".to_string()) {
        Some(ServerCall::Send { content }) => assert_eq!(content, "hi"),
        other => panic!("{:?}", other),
    }
}

#[test]
fn client_shows_all_but_confirmations() {
    assert!(!ClientCall::Okay("fine".to_string()).is_shown());
    assert!(ClientCall::Error("bad".to_string()).is_shown());
    assert!(ClientCall::Notification("n".to_string()).is_shown());
    assert!(ClientCall::Connection { username: "a".to_string() }.is_shown());
    assert!(ClientCall::Disconnection { username: "a".to_string() }.is_shown());
    assert!(ClientCall::PushMessage { sender: "a".to_string(), content: "b".to_string() }
        .is_shown());
}

#[test]
fn frames_without_text_stand_for_calls() {
    match ServerCall::from_signal(Signal::Ping) {
        ServerCall::Okay(text) => assert_eq!(text, "Pong"),
        other => panic!("{:?}", other),
    }
    match ServerCall::from_signal(Signal::Close) {
        ServerCall::Notification(text) => assert_eq!(text, "Goodbye"),
        other => panic!("{:?}", other),
    }
    match ServerCall::from_signal(Signal::Other) {
        ServerCall::Notification(text) => assert_eq!(text, "Non-text call. Ignoring processing."),
        other => panic!("{:?}", other),
    }
}

#[test]
fn frames_signal_their_kind() {
    assert_eq!(Signal::of_frame(&Frame::Text("x".to_string())), None);
    assert_eq!(Signal::of_frame(&Frame::Ping(vec![1])), Some(Signal::Ping));
    assert_eq!(Signal::of_frame(&Frame::Close), Some(Signal::Close));
    assert_eq!(Signal::of_frame(&Frame::Pong(Vec::new())), Some(Signal::Other));
    assert_eq!(Signal::of_frame(&Frame::Binary(vec![0])), Some(Signal::Other));
}

#[test]
fn identifier_call_describes_itself() {
    assert_eq!(ClientCall::Uuid(0xbeef).describe(), "uuid: beef");
    assert_eq!(ClientCall::Uuid(0).describe(), "uuid: 0");
    assert!(ClientCall::Uuid(1).is_shown());
}

#[test]
fn events_become_client_calls() {
    match ClientCall::from_event(BroadcastEvent::join("alice".to_string())) {
        ClientCall::Connection { username } => assert_eq!(username, "alice"),
        other => panic!("{:?}", other),
    }
    match ClientCall::from_event(BroadcastEvent::leave("alice".to_string())) {
        ClientCall::Disconnection { username } => assert_eq!(username, "alice"),
        other => panic!("{:?}", other),
    }
    match ClientCall::from_event(BroadcastEvent::message("alice".to_string(), "hi".to_string())) {
        ClientCall::PushMessage { sender, content } => {
            assert_eq!(sender, "alice");
            assert_eq!(content, "hi");
        }
        other => panic!("{:?}", other),
    }
    match ClientCall::from_event(BroadcastEvent::error("bad".to_string())) {
        ClientCall::Error(text) => assert_eq!(text, "bad"),
        other => panic!("{:?}", other),
    }
    let bare = |event| BroadcastEvent { event, sender: None, content: None };
    match ClientCall::from_event(bare(BroadcastEventType::Message)) {
        ClientCall::PushMessage { sender, content } => {
            assert_eq!(sender, "Server");
            assert_eq!(content, "");
        }
        other => panic!("{:?}", other),
    }
    assert!(matches!(
        ClientCall::from_event(bare(BroadcastEventType::Alert)),
        ClientCall::Notification(text) if text.is_empty()
    ));
    assert!(matches!(
        ClientCall::from_event(bare(BroadcastEventType::Okay)),
        ClientCall::Okay(text) if text.is_empty()
    ));
}

#[test]
fn commands_are_read_without_regard_to_case() {
    assert_eq!(classify_command("help"), CommandKind::Help);
    assert_eq!(classify_command("HELP"), CommandKind::Help);
    assert_eq!(classify_command("Uuid"), CommandKind::Uuid);
    assert_eq!(classify_command("ConNected"), CommandKind::Connected);
    assert_eq!(classify_command(""), CommandKind::Unknown);
    assert_eq!(classify_command("help "), CommandKind::Unknown);
    assert_eq!(classify_command("quit"), CommandKind::Unknown);
}

#[test]
fn commands_are_answered() {
    let names = vec!["alice".to_string(), "bob".to_string()];
    assert_eq!(
        answer_command(255, CommandKind::Help, &names),
        "Available commands: [connected] [uuid]"
    );
    assert_eq!(answer_command(255, CommandKind::Uuid, &names), "Your uuid is ff");
    assert_eq!(answer_command(0, CommandKind::Uuid, &names), "Your uuid is 0");
    assert_eq!(
        answer_command(u128::MAX, CommandKind::Uuid, &names),
        format!("Your uuid is {:x}", u128::MAX)
    );
    assert_eq!(
        answer_command(0x1234_abcd, CommandKind::Uuid, &names),
        "Your uuid is 1234abcd"
    );
    assert_eq!(
        answer_command(1, CommandKind::Connected, &names),
        "2 users connected: [alice] [bob] "
    );
    assert_eq!(answer_command(1, CommandKind::Connected, &Vec::new()), "0 users connected: ");
    assert_eq!(
        answer_command(1, CommandKind::Unknown, &names),
        "Invalid command, try the `help` command to see available commands"
    );
    let many: Vec<String> = (0..12).map(|n| format!("u{}", n)).collect();
    assert!(answer_command(1, CommandKind::Connected, &many).starts_with("12 users connected: [u0] "));
}

#[test]
fn names_are_bracketed() {
    assert_eq!(bracket_names(&Vec::new()), "");
    assert_eq!(bracket_names(&vec!["a".to_string()]), "[a] ");
    assert_eq!(bracket_names(&vec!["a".to_string(), "b c".to_string()]), "[a] [b c] ");
}

#[test]
fn connect_names_an_anonymous_session() {
    let mut relay = Relay::new(16);
    relay.connect(1, ()).unwrap();
    let (reply, published) = reply_of(&mut relay, 1, connect("alice"));
    assert!(matches!(reply, ClientCall::Okay(text) if text == "Successfully joined as alice"));
    let join = published.unwrap();
    assert_eq!(join.event, BroadcastEventType::Join);
    assert_eq!(join.sender, None);
    assert_eq!(join.content.as_deref(), Some("alice"));
    assert_eq!(relay.lookup(1).unwrap().name().as_deref(), Some("alice"));
    assert_eq!(relay.published(), 1);
    match relay.forward(1) {
        Forwarded::Deliver(delivery) => {
            assert!(matches!(
                ClientCall::from_event(delivery.event),
                ClientCall::Connection { username } if username == "alice"
            ));
        }
        other => panic!("{:?}", other),
    }
}

#[test]
fn second_connect_is_refused_and_the_name_stays() {
    let mut relay = Relay::new(16);
    relay.connect(1, ()).unwrap();
    reply_of(&mut relay, 1, connect("alice"));
    let (reply, published) = reply_of(&mut relay, 1, connect("mallory"));
    assert!(matches!(reply, ClientCall::Error(text) if text == "Client already connected with username"));
    assert!(published.is_none());
    assert_eq!(relay.lookup(1).unwrap().name().as_deref(), Some("alice"));
    assert_eq!(relay.published(), 1);
}

#[test]
fn send_needs_a_name() {
    let mut relay = Relay::new(16);
    relay.connect(1, ()).unwrap();
    let (reply, published) = reply_of(&mut relay, 1, send("hi"));
    assert!(matches!(reply, ClientCall::Error(text) if text == "Client not connected with username"));
    assert!(published.is_none());
    assert_eq!(relay.published(), 0);
    reply_of(&mut relay, 1, connect("alice"));
    let (reply, published) = reply_of(&mut relay, 1, send("hi"));
    assert!(matches!(reply, ClientCall::Okay(text) if text == "Message successfully sent"));
    let message = published.unwrap();
    assert_eq!(message.event, BroadcastEventType::Message);
    assert_eq!(message.sender.as_deref(), Some("alice"));
    assert_eq!(message.content.as_deref(), Some("hi"));
    assert_eq!(relay.published(), 2);
}

#[test]
fn other_calls_are_echoed_and_change_nothing() {
    let mut relay = Relay::new(16);
    relay.connect(1, ()).unwrap();
    let (reply, published) = reply_of(&mut relay, 1, ServerCall::Notification("n".to_string()));
    assert!(matches!(reply, ClientCall::Notification(text) if text == "n"));
    assert!(published.is_none());
    let (reply, _) = reply_of(&mut relay, 1, ServerCall::Okay("Pong".to_string()));
    assert!(matches!(reply, ClientCall::Okay(text) if text == "Pong"));
    let (reply, _) = reply_of(&mut relay, 1, ServerCall::Error("bad json".to_string()));
    assert!(matches!(reply, ClientCall::Error(text) if text == "bad json"));
    assert_eq!(relay.published(), 0);
    assert!(!relay.lookup(1).unwrap().is_named());
}

#[test]
fn commands_through_the_relay() {
    let mut relay = Relay::new(16);
    for id in [1u128, 2, 3, 0xabc] {
        relay.connect(id, ()).unwrap();
    }
    reply_of(&mut relay, 1, connect("alice"));
    reply_of(&mut relay, 3, connect("carol"));
    let (reply, published) = reply_of(&mut relay, 2, command("HELP"));
    assert_eq!(notice(reply), "Available commands: [connected] [uuid]");
    assert!(published.is_none());
    let (reply, _) = reply_of(&mut relay, 0xabc, command("uuid"));
    assert_eq!(notice(reply), "Your uuid is abc");
    let (reply, _) = reply_of(&mut relay, 2, command("nonsense"));
    assert_eq!(
        notice(reply),
        "Invalid command, try the `help` command to see available commands"
    );
    let (reply, _) = reply_of(&mut relay, 1, command("Connected"));
    let text = notice(reply);
    assert!(
        text == "2 users connected: [alice] [carol] " || text == "2 users connected: [carol] [alice] ",
        "{:?}",
        text
    );
    assert_eq!(relay.published(), 2);
}

#[test]
fn call_from_an_unknown_session_does_nothing() {
    let mut relay: Relay<()> = Relay::new(16);
    assert!(relay.handle_call(9, connect("ghost")).is_none());
    assert!(relay.handle_call(9, command("connected")).is_none());
    assert_eq!(relay.published(), 0);
    relay.connect(9, ()).unwrap();
    relay.teardown(9, Duty::Inbound);
    assert!(relay.handle_call(9, send("boo")).is_none());
}
