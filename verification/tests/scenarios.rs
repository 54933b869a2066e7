use ephemeral::event::{BroadcastEvent, BroadcastEventType};
use ephemeral::protocol::Frame;
use ephemeral::registry::RegistryError;
use ephemeral::relay::{Duty, Forwarded, Phase, Reaction, Relay};

const A: u128 = 1;
const B: u128 = 2;
const C: u128 = 3;

fn text(frame: &str) -> Frame {
    Frame::Text(frame.to_string())
}

fn relay_with(ids: &[u128]) -> Relay<()> {
    let mut relay = Relay::new(128);
    for id in ids {
        assert_eq!(relay.connect(*id, ()), Ok(()));
    }
    relay
}

fn published(reaction: Reaction) -> BroadcastEvent {
    match reaction {
        Reaction::Published(event) => event,
        other => panic!("nothing was published: {:?}", other),
    }
}

fn delivered(forwarded: Forwarded) -> (BroadcastEvent, u64) {
    match forwarded {
        Forwarded::Deliver(delivery) => (delivery.event, delivery.sequence),
        other => panic!("nothing was delivered: {:?}", other),
    }
}

fn assert_event(
    event: &BroadcastEvent,
    kind: BroadcastEventType,
    sender: Option<&str>,
    content: Option<&str>,
) {
    assert_eq!(event.event, kind);
    assert_eq!(event.sender.as_deref(), sender);
    assert_eq!(event.content.as_deref(), content);
}

#[test]
fn first_text_names_the_session_and_is_no_message() {
    let mut relay = relay_with(&[A]);
    assert!(matches!(relay.forward(A), Forwarded::Idle));
    let event = published(relay.handle_frame(A, &text("{\"message\":\"alice\"}")));
    assert_event(&event, BroadcastEventType::Join, None, Some("alice"));
    assert_eq!(relay.lookup(A).unwrap().name().as_deref(), Some("alice"));
    let (seen, sequence) = delivered(relay.forward(A));
    assert_event(&seen, BroadcastEventType::Join, None, Some("alice"));
    assert_eq!(sequence, 0);
    assert!(matches!(relay.forward(A), Forwarded::Idle));
}

#[test]
fn join_reaches_every_named_session() {
    let mut relay = relay_with(&[A]);
    published(relay.handle_frame(A, &text("{\"message\":\"alice\"}")));
    delivered(relay.forward(A));
    assert_eq!(relay.connect(B, ()), Ok(()));
    let event = published(relay.handle_frame(B, &text("{\"message\":\"bob\"}")));
    assert_event(&event, BroadcastEventType::Join, None, Some("bob"));
    let (to_a, _) = delivered(relay.forward(A));
    assert_event(&to_a, BroadcastEventType::Join, None, Some("bob"));
    let (to_b, sequence) = delivered(relay.forward(B));
    assert_event(&to_b, BroadcastEventType::Join, None, Some("bob"));
    assert_eq!(sequence, 0);
}

#[test]
fn message_reaches_all_named_sessions_including_the_sender() {
    let mut relay = relay_with(&[A, B]);
    published(relay.handle_frame(A, &text("{\"message\":\"alice\"}")));
    published(relay.handle_frame(B, &text("{\"message\":\"bob\"}")));
    while !matches!(relay.forward(A), Forwarded::Idle) {}
    while !matches!(relay.forward(B), Forwarded::Idle) {}
    let event = published(relay.handle_frame(A, &text("{\"message\":\"hi\"}")));
    assert_event(&event, BroadcastEventType::Message, Some("alice"), Some("hi"));
    let (to_a, _) = delivered(relay.forward(A));
    assert_event(&to_a, BroadcastEventType::Message, Some("alice"), Some("hi"));
    let (to_b, _) = delivered(relay.forward(B));
    assert_event(&to_b, BroadcastEventType::Message, Some("alice"), Some("hi"));
}

#[test]
fn newcomer_sees_nothing_until_named_and_nothing_older() {
    let mut relay = relay_with(&[A, B]);
    published(relay.handle_frame(A, &text("{\"message\":\"alice\"}")));
    published(relay.handle_frame(B, &text("{\"message\":\"bob\"}")));
    published(relay.handle_frame(A, &text("{\"message\":\"one\"}")));
    assert_eq!(relay.connect(C, ()), Ok(()));
    published(relay.handle_frame(B, &text("{\"message\":\"two\"}")));
    published(relay.handle_frame(A, &text("{\"message\":\"three\"}")));
    assert!(matches!(relay.forward(C), Forwarded::Suppressed));
    assert_eq!(relay.lookup(C).unwrap().delivered(), 0);
    published(relay.handle_frame(C, &text("{\"message\":\"carol\"}")));
    let (first, sequence) = delivered(relay.forward(C));
    assert_event(&first, BroadcastEventType::Join, None, Some("carol"));
    assert_eq!(sequence, 0);
    assert!(matches!(relay.forward(C), Forwarded::Idle));
    published(relay.handle_frame(A, &text("{\"message\":\"four\"}")));
    let (second, sequence) = delivered(relay.forward(C));
    assert_event(&second, BroadcastEventType::Message, Some("alice"), Some("four"));
    assert_eq!(sequence, 1);
}

#[test]
fn abrupt_end_of_a_named_session_publishes_one_leave() {
    let mut relay = relay_with(&[A, B]);
    published(relay.handle_frame(A, &text("{\"message\":\"alice\"}")));
    published(relay.handle_frame(B, &text("{\"message\":\"bob\"}")));
    while !matches!(relay.forward(B), Forwarded::Idle) {}
    let before = relay.published();
    let teardown = relay.teardown(A, Duty::Inbound).expect("the first teardown acts");
    assert_eq!(teardown.cancel, (Duty::Outbound, Duty::Forwarder));
    assert_event(
        teardown.leave.as_ref().unwrap(),
        BroadcastEventType::Leave,
        None,
        Some("alice"),
    );
    assert_eq!(relay.published(), before + 1);
    assert!(matches!(relay.lookup(A), Err(RegistryError::NotFound)));
    assert!(relay.teardown(A, Duty::Forwarder).is_none());
    assert!(relay.teardown(A, Duty::Outbound).is_none());
    assert_eq!(relay.published(), before + 1);
    let (to_b, _) = delivered(relay.forward(B));
    assert_event(&to_b, BroadcastEventType::Leave, None, Some("alice"));
    assert!(matches!(relay.forward(B), Forwarded::Idle));
    assert!(matches!(relay.forward(A), Forwarded::Gone));
}

#[test]
fn anonymous_session_leaves_silently() {
    let mut relay = relay_with(&[A]);
    let teardown = relay.teardown(A, Duty::Outbound).unwrap();
    assert_eq!(teardown.cancel, (Duty::Inbound, Duty::Forwarder));
    assert!(teardown.leave.is_none());
    assert_eq!(relay.published(), 0);
}

#[test]
fn malformed_frame_gets_local_error_and_connection_stays() {
    let mut relay = relay_with(&[A, B]);
    published(relay.handle_frame(B, &text("{\"message\":\"bob\"}")));
    while !matches!(relay.forward(B), Forwarded::Idle) {}
    for frame in [
        text("not json"),
        Frame::Binary(vec![1, 2, 3]),
        text("{\"message\":\"  \"}"),
        Frame::Ping(Vec::new()),
    ] {
        let before = relay.published();
        match relay.handle_frame(A, &frame) {
            Reaction::Rejected(delivery) => {
                assert_event(
                    &delivery.event,
                    BroadcastEventType::Error,
                    None,
                    Some("Malformed payload"),
                );
            }
            other => panic!("expected a rejection: {:?}", other),
        }
        assert_eq!(relay.published(), before);
        assert!(relay.lookup(A).is_ok());
        assert!(!relay.lookup(A).unwrap().is_named());
    }
    assert_eq!(relay.lookup(A).unwrap().delivered(), 4);
    assert!(matches!(relay.forward(B), Forwarded::Idle));
    let event = published(relay.handle_frame(A, &text("{\"message\":\"alice\"}")));
    assert_event(&event, BroadcastEventType::Join, None, Some("alice"));
    let (_, sequence) = delivered(relay.forward(A));
    assert_eq!(sequence, 4);
}

#[test]
fn accepted_connection_gets_a_fresh_id() {
    let mut relay: Relay<&'static str> = Relay::new(8);
    let first = relay.accept("one").unwrap();
    let second = relay.accept("two").unwrap();
    assert_ne!(first, second);
    assert_eq!(relay.lookup(first).unwrap().id(), first);
    assert_eq!(*relay.lookup(first).unwrap().outbound(), "one");
    assert_eq!(*relay.lookup(second).unwrap().outbound(), "two");
    assert!(!relay.lookup(first).unwrap().is_named());
}

#[test]
fn accept_cannot_fail_on_an_empty_relay() {
    for _ in 0..100 {
        let mut relay: Relay<()> = Relay::new(4);
        let id = relay.accept(()).expect("no identifier is taken");
        assert_eq!(relay.phase(id), Phase::Anonymous);
    }
}

#[test]
fn taken_id_is_refused() {
    let mut relay = relay_with(&[A]);
    published(relay.handle_frame(A, &text("{\"message\":\"alice\"}")));
    assert_eq!(relay.connect(A, ()), Err(RegistryError::DuplicateId));
    assert_eq!(relay.lookup(A).unwrap().name().as_deref(), Some("alice"));
}

#[test]
fn frame_for_an_unknown_session_does_nothing() {
    let mut relay = relay_with(&[A]);
    assert!(matches!(relay.handle_frame(B, &text("{\"message\":\"bob\"}")), Reaction::Gone));
    assert!(matches!(relay.forward(B), Forwarded::Gone));
    assert!(relay.teardown(B, Duty::Forwarder).is_none());
    assert_eq!(relay.published(), 0);
    assert!(relay.can_deliver(B));
}

#[test]
fn each_duty_cancels_the_other_two() {
    assert_eq!(Duty::Inbound.rest(), (Duty::Outbound, Duty::Forwarder));
    assert_eq!(Duty::Outbound.rest(), (Duty::Inbound, Duty::Forwarder));
    assert_eq!(Duty::Forwarder.rest(), (Duty::Inbound, Duty::Outbound));
    for trigger in [Duty::Inbound, Duty::Outbound, Duty::Forwarder] {
        let mut relay = relay_with(&[A]);
        let teardown = relay.teardown(A, trigger).unwrap();
        assert_eq!(teardown.cancel, trigger.rest());
        assert!(relay.teardown(A, trigger).is_none());
    }
}

#[test]
fn teardown_gives_back_the_outbound_handle() {
    let mut relay: Relay<String> = Relay::new(8);
    relay.connect(A, "handle of a".to_string()).unwrap();
    let teardown = relay.teardown(A, Duty::Outbound).unwrap();
    assert_eq!(teardown.outbound, "handle of a");
}

#[test]
fn lagging_session_sees_a_gap_and_goes_on() {
    let mut relay: Relay<()> = Relay::new(2);
    relay.connect(A, ()).unwrap();
    relay.connect(B, ()).unwrap();
    published(relay.handle_frame(A, &text("{\"message\":\"alice\"}")));
    published(relay.handle_frame(B, &text("{\"message\":\"bob\"}")));
    while !matches!(relay.forward(A), Forwarded::Idle) {}
    for n in 0..5 {
        let frame = format!("{{\"message\":\"m{}\"}}", n);
        published(relay.handle_frame(B, &text(&frame)));
    }
    match relay.forward(A) {
        Forwarded::Gap(missed) => assert_eq!(missed, 3),
        other => panic!("no gap: {:?}", other),
    }
    let (event, _) = delivered(relay.forward(A));
    assert_event(&event, BroadcastEventType::Message, Some("bob"), Some("m3"));
    let (event, _) = delivered(relay.forward(A));
    assert_event(&event, BroadcastEventType::Message, Some("bob"), Some("m4"));
    assert!(matches!(relay.forward(A), Forwarded::Idle));
    assert!(relay.can_publish());
    assert!(relay.can_deliver(A));
}

#[test]
fn own_events_come_back_in_the_order_of_their_publication() {
    let mut relay = relay_with(&[A]);
    for word in ["alice", "one", "two", "three"] {
        let frame = format!("{{\"message\":\"{}\"}}", word);
        published(relay.handle_frame(A, &text(&frame)));
    }
    let (event, sequence) = delivered(relay.forward(A));
    assert_event(&event, BroadcastEventType::Join, None, Some("alice"));
    assert_eq!(sequence, 0);
    for (n, word) in ["one", "two", "three"].iter().enumerate() {
        let (event, sequence) = delivered(relay.forward(A));
        assert_event(&event, BroadcastEventType::Message, Some("alice"), Some(word));
        assert_eq!(sequence, n as u64 + 1);
    }
}

#[test]
fn snapshot_names_the_named() {
    let mut relay = relay_with(&[A, B, C]);
    assert!(relay.snapshot_named().is_empty());
    published(relay.handle_frame(A, &text("{\"message\":\"alice\"}")));
    published(relay.handle_frame(C, &text("{\"message\":\"carol\"}")));
    let mut names = relay.snapshot_named();
    names.sort();
    assert_eq!(names, vec!["alice".to_string(), "carol".to_string()]);
    relay.teardown(A, Duty::Inbound);
    assert_eq!(relay.snapshot_named(), vec!["carol".to_string()]);
}

#[test]
fn connection_moves_from_anonymous_to_named_to_terminated() {
    let mut relay: Relay<()> = Relay::with_default_capacity();
    assert_eq!(relay.phase(A), Phase::Terminated);
    relay.connect(A, ()).unwrap();
    assert_eq!(relay.phase(A), Phase::Anonymous);
    relay.handle_frame(A, &text("garbage"));
    relay.forward(A);
    assert_eq!(relay.phase(A), Phase::Anonymous);
    published(relay.handle_frame(A, &text("{\"message\":\"alice\"}")));
    assert_eq!(relay.phase(A), Phase::Named);
    published(relay.handle_frame(A, &text("{\"message\":\"bob\"}")));
    relay.forward(A);
    assert_eq!(relay.phase(A), Phase::Named);
    assert_eq!(relay.lookup(A).unwrap().name().as_deref(), Some("alice"));
    relay.teardown(A, Duty::Forwarder);
    assert_eq!(relay.phase(A), Phase::Terminated);
    assert!(matches!(relay.handle_frame(A, &text("{\"message\":\"alice\"}")), Reaction::Gone));
    assert_eq!(relay.phase(A), Phase::Terminated);
}

#[test]
fn observer_sees_one_join_then_the_messages_then_one_leave() {
    let mut relay = relay_with(&[B]);
    published(relay.handle_frame(B, &text("{\"message\":\"bob\"}")));
    while !matches!(relay.forward(B), Forwarded::Idle) {}
    relay.connect(A, ()).unwrap();
    relay.handle_frame(A, &text("nonsense"));
    for word in ["alice", "one", "two"] {
        let frame = format!("{{\"message\":\"{}\"}}", word);
        published(relay.handle_frame(A, &text(&frame)));
    }
    relay.teardown(A, Duty::Inbound);
    relay.teardown(A, Duty::Outbound);
    relay.connect(C, ()).unwrap();
    relay.teardown(C, Duty::Inbound);
    let mut seen = Vec::new();
    loop {
        match relay.forward(B) {
            Forwarded::Deliver(delivery) => seen.push(delivery.event),
            Forwarded::Idle => break,
            other => panic!("{:?}", other),
        }
    }
    assert_eq!(seen.len(), 4);
    assert_event(&seen[0], BroadcastEventType::Join, None, Some("alice"));
    assert_event(&seen[1], BroadcastEventType::Message, Some("alice"), Some("one"));
    assert_event(&seen[2], BroadcastEventType::Message, Some("alice"), Some("two"));
    assert_event(&seen[3], BroadcastEventType::Leave, None, Some("alice"));
}
