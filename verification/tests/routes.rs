use chat_relay::{cors_headers, events, post, rocket, Delivery, Message, Phase, Step};

fn hello() -> Message {
    Message::new("lobby", "alice", "hi", "bottts").unwrap()
}

#[test]
fn server_starts_with_an_open_empty_hub() {
    let hub = rocket();
    assert!(!hub.is_closed());
    assert_eq!(hub.published(), 0);
    assert_eq!(hub.subscriber_count(), 0);
    assert!(hub.retained().is_empty());
}

#[test]
fn post_publishes_the_message() {
    let mut hub = rocket();
    let mut sub = hub.subscribe();
    post(hello(), &mut hub);
    assert_eq!(hub.published(), 1);
    assert_eq!(sub.receive(&hub), Delivery::Message(hello()));
}

#[test]
fn post_without_listeners_keeps_the_message() {
    let mut hub = rocket();
    post(hello(), &mut hub);
    assert_eq!(hub.published(), 1);
    assert_eq!(hub.retained(), vec![hello()]);
}

#[test]
fn post_to_a_closed_hub_is_swallowed() {
    let mut hub = rocket();
    hub.shutdown();
    post(hello(), &mut hub);
    assert_eq!(hub.published(), 0);
    assert!(hub.retained().is_empty());
}

#[test]
fn events_opens_a_session_that_sees_later_posts_only() {
    let mut hub = rocket();
    post(Message::new("lobby", "bob", "early", "bottts").unwrap(), &mut hub);
    let mut session = events(&mut hub);
    assert_eq!(session.phase(), Phase::Waiting);
    assert_eq!(hub.subscriber_count(), 1);
    assert_eq!(session.step(&mut hub, false), Step::Wait);
    post(hello(), &mut hub);
    assert_eq!(session.step(&mut hub, false), Step::Emit(hello()));
    assert_eq!(session.step(&mut hub, false), Step::Wait);
}

#[test]
fn cors_headers_are_the_three_permissive_ones() {
    let headers = cors_headers();
    let pairs: Vec<(&str, &str)> = headers.iter().map(|h| (h.name, h.value)).collect();
    assert_eq!(
        pairs,
        vec![
            ("Access-Control-Allow-Origin", "*"),
            ("Access-Control-Allow-Methods", "GET, POST, PUT, DELETE"),
            ("Access-Control-Allow-Headers", "Content-Type"),
        ]
    );
}
