use pubsub_noop::{
    check_ordering_key, disposition, Action, DeliveryLoop, Disposition, Event, LoopState,
    MemoryTopic, MessageData, MessageId, NoopCluster, NoopTopic, PubSubError, RetryPolicy,
    SubscriptionConfig, SubscriptionMeta, Topic, TopicConfig,
};

fn topic_config(name: &str) -> TopicConfig {
    TopicConfig { name: name.to_string(), ordered: true }
}

fn subscription_config(max_attempts: u32, dead_letter: Option<&str>) -> SubscriptionConfig {
    SubscriptionConfig {
        name: "sub".to_string(),
        topic: "orders".to_string(),
        max_attempts,
        dead_letter_topic: dead_letter.map(|s| s.to_string()),
    }
}

fn meta() -> SubscriptionMeta {
    SubscriptionMeta { topic: "orders".to_string(), ordered: true }
}

fn hello() -> MessageData {
    MessageData::new(b"hello".to_vec())
}

#[test]
fn noop_publish_hello_is_configuration_error() {
    let cluster = NoopCluster;
    let mut topic = cluster.topic(&topic_config("orders"), xid::new());
    assert_eq!(topic.publish(hello(), None), Err(PubSubError::NotConfigured));
}

#[test]
fn noop_publish_fails_on_every_call() {
    let mut topic = NoopTopic;
    for key in [None, Some("k1".to_string()), Some(String::new())] {
        assert_eq!(topic.publish(hello(), key), Err(PubSubError::NotConfigured));
    }
    assert_eq!(topic.publish(MessageData::new(Vec::new()), None), Err(PubSubError::NotConfigured));
}

#[test]
fn noop_subscribe_then_cancel_stops_cleanly() {
    let cluster = NoopCluster;
    let mut sub = cluster.subscription(&subscription_config(3, None), &meta());
    assert_eq!(sub.state(), LoopState::Idle);
    assert_eq!(sub.subscribe(), Action::Wait);
    assert_eq!(sub.state(), LoopState::Delivering);
    let mut invocations = 0;
    for e in [Event::Poll, Event::Received(MessageId { value: 1 }), Event::Poll, Event::BackendFatal] {
        if let Action::Invoke(_) = sub.step(e) {
            invocations += 1;
        }
    }
    assert_eq!(sub.state(), LoopState::Delivering);
    assert_eq!(sub.step(Event::Cancel), Action::Stop);
    assert_eq!(sub.state(), LoopState::Stopped);
    assert_eq!(invocations, 0);
    assert_eq!(sub.step(Event::Poll), Action::Wait);
}

#[test]
fn noop_lookups_agree() {
    let cluster = NoopCluster;
    let a = cluster.topic(&topic_config("orders"), xid::new());
    let b = cluster.topic(&topic_config("orders"), xid::new());
    assert_eq!(a, b);
    let mut s1 = cluster.subscription(&subscription_config(2, None), &meta());
    let mut s2 = cluster.subscription(&subscription_config(2, None), &meta());
    for e in [Event::Start, Event::Poll, Event::Cancel] {
        assert_eq!(s1.step(e), s2.step(e));
        assert_eq!(s1.state(), s2.state());
    }
}

#[test]
fn memory_publish_ids_are_unique() {
    let mut topic = MemoryTopic::new();
    let a = topic.publish(hello(), None).unwrap();
    let b = topic.publish(hello(), Some("k1".to_string())).unwrap();
    let c = topic.publish(hello(), None).unwrap();
    assert_ne!(a, b);
    assert_ne!(b, c);
    assert_ne!(a, c);
    assert_eq!(topic.len(), 3);
    assert_eq!(topic.entry(1).id, b);
    assert_eq!(topic.entry(1).ordering_key, Some("k1".to_string()));
}

#[test]
fn memory_publish_rejects_empty_ordering_key() {
    let mut topic = MemoryTopic::new();
    assert_eq!(topic.publish(hello(), Some(String::new())), Err(PubSubError::EmptyOrderingKey));
    assert_eq!(topic.len(), 0);
}

#[test]
fn same_key_messages_delivered_in_publish_order() {
    let mut topic = MemoryTopic::new();
    let first = topic.publish(MessageData::new(b"one".to_vec()), Some("k1".to_string())).unwrap();
    let second = topic.publish(MessageData::new(b"two".to_vec()), Some("k1".to_string())).unwrap();
    let mut sub = DeliveryLoop::new(subscription_config(3, None).retry_policy());
    assert_eq!(sub.step(Event::Start), Action::Wait);
    for i in 0..topic.len() {
        assert_eq!(sub.step(Event::Received(topic.entry(i).id)), Action::Wait);
    }
    let mut handled = Vec::new();
    loop {
        match sub.step(Event::Poll) {
            Action::Invoke(id) => {
                handled.push(id);
                assert_eq!(sub.step(Event::HandlerSucceeded), Action::Ack(id));
            }
            Action::Wait => break,
            other => panic!("unexpected action {:?}", other),
        }
    }
    assert_eq!(handled, vec![first, second]);
    assert_eq!(topic.entry(0).data.payload, b"one".to_vec());
}

#[test]
fn failed_message_redelivered_then_dead_lettered() {
    let policy = subscription_config(3, Some("orders-dead")).retry_policy();
    assert_eq!(policy, RetryPolicy { max_attempts: 3, dead_letter: true });
    let id = MessageId { value: 7 };
    let mut sub = DeliveryLoop::new(policy);
    sub.step(Event::Start);
    sub.step(Event::Received(id));
    for _ in 0..2 {
        assert_eq!(sub.step(Event::Poll), Action::Invoke(id));
        assert_eq!(sub.step(Event::HandlerFailed), Action::Redeliver(id));
    }
    assert_eq!(sub.step(Event::Poll), Action::Invoke(id));
    assert_eq!(sub.step(Event::HandlerFailed), Action::DeadLetter(id));
    assert_eq!(sub.step(Event::Poll), Action::Wait);
}

#[test]
fn failed_message_discarded_without_dead_letter() {
    let id = MessageId { value: 1 };
    let mut sub = DeliveryLoop::new(RetryPolicy { max_attempts: 1, dead_letter: false });
    sub.step(Event::Start);
    sub.step(Event::Received(id));
    assert_eq!(sub.step(Event::Poll), Action::Invoke(id));
    assert_eq!(sub.step(Event::HandlerFailed), Action::Discard(id));
}

#[test]
fn zero_attempt_limit_still_tries_once() {
    let id = MessageId { value: 4 };
    let mut sub = DeliveryLoop::new(RetryPolicy { max_attempts: 0, dead_letter: true });
    sub.step(Event::Start);
    sub.step(Event::Received(id));
    assert_eq!(sub.step(Event::Poll), Action::Invoke(id));
    assert_eq!(sub.step(Event::HandlerFailed), Action::DeadLetter(id));
}

#[test]
fn disposition_values() {
    let p = RetryPolicy { max_attempts: 2, dead_letter: true };
    assert_eq!(disposition(p, 1, true), Disposition::Ack);
    assert_eq!(disposition(p, 1, false), Disposition::Redeliver);
    assert_eq!(disposition(p, 2, false), Disposition::DeadLetter);
    let q = RetryPolicy { max_attempts: 2, dead_letter: false };
    assert_eq!(disposition(q, 2, false), Disposition::Discard);
    assert_eq!(disposition(q, 5, true), Disposition::Ack);
}

#[test]
fn cancel_waits_for_handler_in_flight() {
    let a = MessageId { value: 1 };
    let b = MessageId { value: 2 };
    let mut sub = DeliveryLoop::new(RetryPolicy { max_attempts: 3, dead_letter: false });
    sub.step(Event::Start);
    sub.step(Event::Received(a));
    sub.step(Event::Received(b));
    assert_eq!(sub.step(Event::Poll), Action::Invoke(a));
    assert_eq!(sub.step(Event::Cancel), Action::Wait);
    assert_eq!(sub.state(), LoopState::Draining);
    assert_eq!(sub.step(Event::Received(MessageId { value: 3 })), Action::Wait);
    assert_eq!(sub.step(Event::Poll), Action::Wait);
    assert_eq!(sub.step(Event::HandlerSucceeded), Action::Ack(a));
    assert_eq!(sub.state(), LoopState::Stopped);
    assert_eq!(sub.step(Event::Poll), Action::Wait);
}

#[test]
fn cancel_when_idle_handler_stops_at_once() {
    let mut sub = DeliveryLoop::new(RetryPolicy { max_attempts: 3, dead_letter: false });
    sub.step(Event::Start);
    assert_eq!(sub.step(Event::Cancel), Action::Stop);
    assert_eq!(sub.state(), LoopState::Stopped);
}

#[test]
fn backend_fatal_fails_loop() {
    let mut sub = DeliveryLoop::new(RetryPolicy { max_attempts: 3, dead_letter: false });
    sub.step(Event::Start);
    assert_eq!(sub.step(Event::BackendFatal), Action::Fail);
    assert_eq!(sub.state(), LoopState::Failed);
    assert_eq!(sub.step(Event::Cancel), Action::Wait);
    assert_eq!(sub.state(), LoopState::Failed);
}

#[test]
fn ordering_key_check() {
    assert!(check_ordering_key(&None));
    assert!(check_ordering_key(&Some("k1".to_string())));
    assert!(!check_ordering_key(&Some(String::new())));
}

#[test]
fn message_data_new_has_no_attributes() {
    let m = hello();
    assert_eq!(m.payload, b"hello".to_vec());
    assert!(m.attributes.is_empty());
}
