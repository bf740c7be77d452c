use chat_relay::{Delivery, Hub, HubClosed, Message, CAPACITY};

fn numbered(n: usize) -> Message {
    Message {
        room: String::from("lobby"),
        username: String::from("alice"),
        message: format!("publish #{}", n),
        avatar_style: String::from("bottts"),
    }
}

fn publish_numbered(hub: &mut Hub, from: usize, to: usize) {
    for n in from..=to {
        assert!(hub.publish(numbered(n)).is_ok());
    }
}

#[test]
fn capacity_is_1024() {
    assert_eq!(CAPACITY, 1024);
}

#[test]
fn new_hub_is_open_and_empty() {
    let hub = Hub::new();
    assert!(!hub.is_closed());
    assert_eq!(hub.published(), 0);
    assert_eq!(hub.oldest(), 0);
    assert_eq!(hub.subscriber_count(), 0);
    assert!(hub.retained().is_empty());
    assert!(hub.message_at(0).is_none());
}

#[test]
fn publish_without_subscribers_succeeds_with_zero() {
    let mut hub = Hub::new();
    for n in 1..=3 {
        assert_eq!(hub.publish(numbered(n)), Ok(0));
    }
    assert_eq!(hub.published(), 3);
    assert_eq!(hub.retained(), vec![numbered(1), numbered(2), numbered(3)]);
}

#[test]
fn buffer_retains_all_up_to_capacity() {
    let mut hub = Hub::new();
    publish_numbered(&mut hub, 1, 1024);
    let retained = hub.retained();
    assert_eq!(retained.len(), 1024);
    assert_eq!(retained[0], numbered(1));
    assert_eq!(retained[1023], numbered(1024));
    assert_eq!(hub.oldest(), 0);
}

#[test]
fn buffer_evicts_the_oldest_when_full() {
    let mut hub = Hub::new();
    publish_numbered(&mut hub, 1, 1025);
    let retained = hub.retained();
    assert_eq!(retained.len(), 1024);
    assert_eq!(retained[0], numbered(2));
    assert_eq!(retained[1023], numbered(1025));
    assert_eq!(hub.oldest(), 1);
    assert!(hub.message_at(0).is_none());
    assert_eq!(hub.message_at(1), Some(&numbered(2)));
    assert_eq!(hub.message_at(1024), Some(&numbered(1025)));
    assert!(hub.message_at(1025).is_none());
}

#[test]
fn buffer_retains_newest_1024_of_2000_in_order() {
    let mut hub = Hub::new();
    for n in 1..=2000 {
        assert_eq!(hub.publish(numbered(n)), Ok(0));
    }
    let retained = hub.retained();
    assert_eq!(hub.published(), 2000);
    assert_eq!(hub.oldest(), 976);
    assert_eq!(retained.len(), 1024);
    for (i, msg) in retained.iter().enumerate() {
        assert_eq!(*msg, numbered(977 + i));
    }
}

#[test]
fn publish_reports_the_number_of_subscriptions() {
    let mut hub = Hub::new();
    let mut first = hub.subscribe();
    let _second = hub.subscribe();
    let _third = hub.subscribe();
    assert_eq!(hub.subscriber_count(), 3);
    assert_eq!(hub.publish(numbered(1)), Ok(3));
    hub.unsubscribe(&mut first);
    assert_eq!(hub.subscriber_count(), 2);
    assert_eq!(hub.publish(numbered(2)), Ok(2));
}

#[test]
fn subscriber_gets_what_is_published_and_a_later_one_does_not() {
    let mut hub = Hub::new();
    let mut before = hub.subscribe();
    let msg = Message::new("lobby", "alice", "hi", "bottts").unwrap();
    assert_eq!(hub.publish(msg.clone()), Ok(1));
    let mut after = hub.subscribe();
    assert_eq!(before.receive(&hub), Delivery::Message(msg));
    assert_eq!(before.receive(&hub), Delivery::Empty);
    assert_eq!(after.receive(&hub), Delivery::Empty);
}

#[test]
fn subscription_starts_at_the_write_index() {
    let mut hub = Hub::new();
    publish_numbered(&mut hub, 1, 5);
    let mut sub = hub.subscribe();
    assert_eq!(sub.position(), 5);
    assert!(sub.is_live());
    assert_eq!(sub.receive(&hub), Delivery::Empty);
    publish_numbered(&mut hub, 6, 7);
    assert_eq!(sub.receive(&hub), Delivery::Message(numbered(6)));
    assert_eq!(sub.receive(&hub), Delivery::Message(numbered(7)));
    assert_eq!(sub.receive(&hub), Delivery::Empty);
    assert_eq!(sub.position(), 7);
}

#[test]
fn subscribe_after_2000_publishes_has_nothing_to_read() {
    let mut hub = Hub::new();
    publish_numbered(&mut hub, 1, 2000);
    let mut sub = hub.subscribe();
    assert_eq!(sub.position(), 2000);
    assert_eq!(sub.receive(&hub), Delivery::Empty);
    assert_eq!(hub.retained()[0], numbered(977));
    assert_eq!(hub.publish(numbered(2001)), Ok(1));
    assert_eq!(sub.receive(&hub), Delivery::Message(numbered(2001)));
}

#[test]
fn interleaved_reads_keep_the_order_of_publishing() {
    let mut hub = Hub::new();
    let mut sub = hub.subscribe();
    let mut next = 1;
    for round in 1..=50 {
        publish_numbered(&mut hub, 2 * round - 1, 2 * round);
        assert_eq!(sub.receive(&hub), Delivery::Message(numbered(next)));
        next += 1;
    }
    while next <= 100 {
        assert_eq!(sub.receive(&hub), Delivery::Message(numbered(next)));
        next += 1;
    }
    assert_eq!(sub.receive(&hub), Delivery::Empty);
}

#[test]
fn two_subscribers_each_get_every_message() {
    let mut hub = Hub::new();
    let mut one = hub.subscribe();
    let mut two = hub.subscribe();
    publish_numbered(&mut hub, 1, 3);
    for n in 1..=3 {
        assert_eq!(one.receive(&hub), Delivery::Message(numbered(n)));
    }
    for n in 1..=3 {
        assert_eq!(two.receive(&hub), Delivery::Message(numbered(n)));
    }
    assert_eq!(one.receive(&hub), Delivery::Empty);
    assert_eq!(two.receive(&hub), Delivery::Empty);
}

#[test]
fn backlog_of_exactly_capacity_loses_nothing() {
    let mut hub = Hub::new();
    let mut sub = hub.subscribe();
    publish_numbered(&mut hub, 1, 1024);
    for n in 1..=1024 {
        assert_eq!(sub.receive(&hub), Delivery::Message(numbered(n)));
    }
    assert_eq!(sub.receive(&hub), Delivery::Empty);
}

#[test]
fn backlog_of_capacity_plus_one_loses_the_oldest() {
    let mut hub = Hub::new();
    let mut sub = hub.subscribe();
    publish_numbered(&mut hub, 1, 1025);
    assert_eq!(sub.receive(&hub), Delivery::Lagged(1));
    assert!(sub.is_live());
    assert_eq!(sub.receive(&hub), Delivery::Message(numbered(2)));
}

#[test]
fn stalled_subscriber_resumes_at_publish_977_of_2000() {
    let mut hub = Hub::new();
    let mut sub = hub.subscribe();
    for n in 1..=2000 {
        assert_eq!(hub.publish(numbered(n)), Ok(1));
    }
    assert_eq!(sub.receive(&hub), Delivery::Lagged(976));
    assert_eq!(sub.position(), 976);
    for n in 977..=2000 {
        assert_eq!(sub.receive(&hub), Delivery::Message(numbered(n)));
    }
    assert_eq!(sub.receive(&hub), Delivery::Empty);
}

#[test]
fn publish_after_shutdown_is_refused() {
    let mut hub = Hub::new();
    publish_numbered(&mut hub, 1, 2);
    hub.shutdown();
    assert!(hub.is_closed());
    assert_eq!(hub.publish(numbered(3)), Err(HubClosed));
    assert_eq!(hub.published(), 2);
    assert_eq!(hub.retained(), vec![numbered(1), numbered(2)]);
}

#[test]
fn shutdown_ends_subscriptions_without_late_messages() {
    let mut hub = Hub::new();
    let mut sub = hub.subscribe();
    publish_numbered(&mut hub, 1, 1);
    hub.shutdown();
    assert_eq!(hub.subscriber_count(), 0);
    assert_eq!(sub.receive(&hub), Delivery::Closed);
    assert!(!sub.is_live());
    assert_eq!(sub.receive(&hub), Delivery::Closed);
}

#[test]
fn subscribe_after_shutdown_gives_an_ended_subscription() {
    let mut hub = Hub::new();
    hub.shutdown();
    let mut sub = hub.subscribe();
    assert!(!sub.is_live());
    assert_eq!(hub.subscriber_count(), 0);
    assert_eq!(sub.receive(&hub), Delivery::Closed);
}

#[test]
fn identifiers_are_handed_out_lowest_first_and_reused() {
    let mut hub = Hub::new();
    let zero = hub.subscribe();
    let mut one = hub.subscribe();
    let two = hub.subscribe();
    assert_eq!((zero.id(), one.id(), two.id()), (0, 1, 2));
    hub.unsubscribe(&mut one);
    assert_eq!(hub.subscriber_count(), 2);
    let again = hub.subscribe();
    assert_eq!(again.id(), 1);
    let three = hub.subscribe();
    assert_eq!(three.id(), 3);
    assert_eq!(hub.subscriber_count(), 4);
}

#[test]
fn unsubscribe_ends_the_subscription_once() {
    let mut hub = Hub::new();
    let mut gone = hub.subscribe();
    let stays = hub.subscribe();
    publish_numbered(&mut hub, 1, 1);
    hub.unsubscribe(&mut gone);
    assert!(!gone.is_live());
    assert_eq!(gone.receive(&hub), Delivery::Closed);
    hub.unsubscribe(&mut gone);
    assert_eq!(hub.subscriber_count(), 1);
    assert!(stays.is_live());
}

#[test]
fn stale_subscription_does_not_release_a_reused_identifier() {
    let mut hub = Hub::new();
    let mut old = hub.subscribe();
    hub.unsubscribe(&mut old);
    let new = hub.subscribe();
    assert_eq!(new.id(), old.id());
    hub.unsubscribe(&mut old);
    assert_eq!(hub.subscriber_count(), 1);
}
