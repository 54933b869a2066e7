use ephemeral::bus::{Bus, Received};
use ephemeral::event::{BroadcastEvent, BroadcastEventType};
use ephemeral::session::Session;

#[test]
fn new_session_is_anonymous() {
    let bus = Bus::new(4);
    let session = Session::new(5, 'h', bus.subscribe());
    assert_eq!(session.id(), 5);
    assert_eq!(session.name(), None);
    assert!(!session.is_named());
    assert_eq!(session.delivered(), 0);
    assert_eq!(*session.outbound(), 'h');
}

#[test]
fn first_text_is_the_name_and_later_texts_are_messages() {
    let bus = Bus::new(4);
    let mut session = Session::new(5, (), bus.subscribe());
    let join = session.speak("alice".to_string(), bus.subscribe());
    assert_eq!(join.event, BroadcastEventType::Join);
    assert_eq!(join.sender, None);
    assert_eq!(join.content.as_deref(), Some("alice"));
    assert_eq!(session.name().as_deref(), Some("alice"));
    for text in ["hi", "bob", "alice"] {
        let message = session.speak(text.to_string(), bus.subscribe());
        assert_eq!(message.event, BroadcastEventType::Message);
        assert_eq!(message.sender.as_deref(), Some("alice"));
        assert_eq!(message.content.as_deref(), Some(text));
        assert_eq!(session.name().as_deref(), Some("alice"));
    }
}

#[test]
fn anonymous_session_is_offered_nothing() {
    let bus = Bus::new(4);
    let mut session = Session::new(5, (), bus.subscribe());
    for event in [
        BroadcastEvent::join("bob".to_string()),
        BroadcastEvent::leave("bob".to_string()),
        BroadcastEvent::message("bob".to_string(), "hi".to_string()),
    ] {
        assert!(session.offer(event).is_none());
    }
    assert_eq!(session.delivered(), 0);
}

#[test]
fn sequence_numbers_rise_by_one() {
    let bus = Bus::new(4);
    let mut session = Session::new(5, (), bus.subscribe());
    let first = session.notify(BroadcastEvent::error("oops".to_string()));
    assert_eq!(first.sequence, 0);
    assert_eq!(first.event.event, BroadcastEventType::Error);
    session.speak("alice".to_string(), bus.subscribe());
    for expected in 1..6u64 {
        let delivery = session
            .offer(BroadcastEvent::message("bob".to_string(), "hi".to_string()))
            .unwrap();
        assert_eq!(delivery.sequence, expected);
        assert_eq!(delivery.event.content.as_deref(), Some("hi"));
        assert_eq!(session.delivered(), expected + 1);
    }
}

#[test]
fn naming_moves_the_cursor_to_now() {
    let mut bus = Bus::new(4);
    let mut session = Session::new(5, (), bus.subscribe());
    bus.publish(BroadcastEvent::message("bob".to_string(), "old".to_string()));
    session.speak("alice".to_string(), bus.subscribe());
    assert!(matches!(session.poll(&bus), Received::Empty));
    bus.publish(BroadcastEvent::message("bob".to_string(), "new".to_string()));
    match session.poll(&bus) {
        Received::Event(event) => assert_eq!(event.content.as_deref(), Some("new")),
        other => panic!("no event: {:?}", other),
    }
}

#[test]
fn close_gives_the_leave_of_a_named_session_only() {
    let bus = Bus::new(4);
    let anonymous = Session::new(5, "a", bus.subscribe());
    let (leave, handle) = anonymous.close();
    assert!(leave.is_none());
    assert_eq!(handle, "a");
    let mut named = Session::new(6, "b", bus.subscribe());
    named.speak("bob".to_string(), bus.subscribe());
    let (leave, handle) = named.close();
    let leave = leave.unwrap();
    assert_eq!(leave.event, BroadcastEventType::Leave);
    assert_eq!(leave.sender, None);
    assert_eq!(leave.content.as_deref(), Some("bob"));
    assert_eq!(handle, "b");
}
