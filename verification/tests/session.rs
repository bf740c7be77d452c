use chat_relay::{Hub, Message, Phase, Session, Step};

fn numbered(n: usize) -> Message {
    Message {
        room: String::from("lobby"),
        username: String::from("alice"),
        message: format!("publish #{}", n),
        avatar_style: String::from("bottts"),
    }
}

#[test]
fn session_opens_waiting_and_subscribed() {
    let mut hub = Hub::new();
    let session = Session::open(&mut hub);
    assert_eq!(session.phase(), Phase::Waiting);
    assert!(!session.is_closed());
    assert!(session.subscription().is_live());
    assert_eq!(hub.subscriber_count(), 1);
}

#[test]
fn session_waits_when_there_is_nothing_to_read() {
    let mut hub = Hub::new();
    let mut session = Session::open(&mut hub);
    assert_eq!(session.step(&mut hub, false), Step::Wait);
    assert_eq!(session.phase(), Phase::Waiting);
}

#[test]
fn session_emits_one_message_per_step() {
    let mut hub = Hub::new();
    let mut session = Session::open(&mut hub);
    assert!(hub.publish(numbered(1)).is_ok());
    assert!(hub.publish(numbered(2)).is_ok());
    assert_eq!(session.step(&mut hub, false), Step::Emit(numbered(1)));
    assert_eq!(session.phase(), Phase::Yielding);
    assert_eq!(session.step(&mut hub, false), Step::Emit(numbered(2)));
    assert_eq!(session.step(&mut hub, false), Step::Wait);
    assert_eq!(session.phase(), Phase::Waiting);
}

#[test]
fn session_skips_a_gap_in_silence() {
    let mut hub = Hub::new();
    let mut session = Session::open(&mut hub);
    for n in 1..=2000 {
        assert!(hub.publish(numbered(n)).is_ok());
    }
    assert_eq!(session.step(&mut hub, false), Step::Skip);
    assert_eq!(session.phase(), Phase::Skipping);
    assert_eq!(session.step(&mut hub, false), Step::Emit(numbered(977)));
    assert_eq!(session.phase(), Phase::Yielding);
}

#[test]
fn cancellation_wins_over_a_waiting_message() {
    let mut hub = Hub::new();
    let mut session = Session::open(&mut hub);
    assert!(hub.publish(numbered(1)).is_ok());
    assert_eq!(session.step(&mut hub, true), Step::Finish);
    assert_eq!(session.phase(), Phase::Closed);
    assert!(session.is_closed());
}

#[test]
fn cancelled_session_emits_nothing_more() {
    let mut hub = Hub::new();
    let mut session = Session::open(&mut hub);
    assert!(hub.publish(numbered(1)).is_ok());
    assert_eq!(session.step(&mut hub, false), Step::Emit(numbered(1)));
    assert_eq!(session.step(&mut hub, true), Step::Finish);
    assert!(hub.publish(numbered(2)).is_ok());
    for _ in 0..3 {
        assert_eq!(session.step(&mut hub, false), Step::Finish);
        assert_eq!(session.phase(), Phase::Closed);
    }
}

#[test]
fn cancelled_session_gives_its_subscription_back() {
    let mut hub = Hub::new();
    let mut one = Session::open(&mut hub);
    let _two = Session::open(&mut hub);
    assert_eq!(hub.subscriber_count(), 2);
    assert_eq!(one.step(&mut hub, true), Step::Finish);
    assert_eq!(hub.subscriber_count(), 1);
    assert!(!one.subscription().is_live());
    assert_eq!(one.step(&mut hub, true), Step::Finish);
    assert_eq!(hub.subscriber_count(), 1);
    assert_eq!(hub.publish(numbered(1)), Ok(1));
}

#[test]
fn shutdown_ends_three_waiting_sessions() {
    let mut hub = Hub::new();
    let mut sessions = vec![
        Session::open(&mut hub),
        Session::open(&mut hub),
        Session::open(&mut hub),
    ];
    for session in sessions.iter_mut() {
        assert_eq!(session.step(&mut hub, false), Step::Wait);
    }
    assert_eq!(hub.publish(numbered(1)), Ok(3));
    hub.shutdown();
    for session in sessions.iter_mut() {
        assert_eq!(session.step(&mut hub, false), Step::Finish);
        assert_eq!(session.phase(), Phase::Closed);
    }
    for session in sessions.iter_mut() {
        assert_eq!(session.step(&mut hub, false), Step::Finish);
    }
    assert_eq!(hub.subscriber_count(), 0);
}

#[test]
fn session_on_a_closed_hub_ends_at_its_first_step() {
    let mut hub = Hub::new();
    hub.shutdown();
    let mut session = Session::open(&mut hub);
    assert_eq!(session.phase(), Phase::Waiting);
    assert_eq!(session.step(&mut hub, false), Step::Finish);
    assert_eq!(session.phase(), Phase::Closed);
}

#[test]
fn emitted_message_has_the_published_fields_byte_for_byte() {
    let mut hub = Hub::new();
    let mut session = Session::open(&mut hub);
    let published = Message {
        room: String::from("caf\u{e9} \u{1F600}"),
        username: String::from("\u{540D}\u{524D}"),
        message: String::from("line one\nline \"two\"\t\\ \u{0}"),
        avatar_style: String::from(""),
    };
    assert!(hub.publish(published.clone()).is_ok());
    match session.step(&mut hub, false) {
        Step::Emit(emitted) => {
            assert_eq!(emitted.room.as_bytes(), published.room.as_bytes());
            assert_eq!(emitted.username.as_bytes(), published.username.as_bytes());
            assert_eq!(emitted.message.as_bytes(), published.message.as_bytes());
            assert_eq!(emitted.avatar_style.as_bytes(), published.avatar_style.as_bytes());
        }
        other => panic!("expected a message, got {:?}", other),
    }
}
