use kroki_bridge::delivery::{next_step, Hub, Step, MAX_ATTEMPTS, RETRY_DELAY_MS};

#[test]
fn retry_policy_without_subscriber() {
    let hub = Hub::new();
    let msg = "{\"jsonrpc\":\"2.0\",\"id\":1,\"result\":{}}".to_string();
    assert_eq!(hub.publish_attempt(&msg, 1), Step::RetryAfter(100));
    assert_eq!(hub.publish_attempt(&msg, 2), Step::RetryAfter(100));
    assert_eq!(hub.publish_attempt(&msg, 3), Step::GiveUp);
    assert_eq!(MAX_ATTEMPTS, 3);
    assert_eq!(RETRY_DELAY_MS, 100);
}

#[test]
fn next_step_table() {
    assert_eq!(next_step(1, true), Step::Delivered);
    assert_eq!(next_step(3, true), Step::Delivered);
    assert_eq!(next_step(1, false), Step::RetryAfter(100));
    assert_eq!(next_step(2, false), Step::RetryAfter(100));
    assert_eq!(next_step(3, false), Step::GiveUp);
}

#[test]
fn publish_with_subscriber_is_delivered() {
    let hub = Hub::new();
    let mut rx = hub.subscribe();
    assert_eq!(hub.publish_attempt(&"a".to_string(), 1), Step::Delivered);
    assert_eq!(rx.try_recv().unwrap(), "a");
}

#[test]
fn two_subscribers_see_same_order() {
    let hub = Hub::new();
    assert_eq!(hub.publish_attempt(&"before".to_string(), 1), Step::RetryAfter(100));
    let mut rx1 = hub.subscribe();
    let mut rx2 = hub.subscribe();
    for m in ["one", "two", "three"] {
        assert_eq!(hub.publish_attempt(&m.to_string(), 1), Step::Delivered);
    }
    let mut got1 = Vec::new();
    let mut got2 = Vec::new();
    while let Ok(m) = rx1.try_recv() {
        got1.push(m);
    }
    while let Ok(m) = rx2.try_recv() {
        got2.push(m);
    }
    assert_eq!(got1, vec!["one", "two", "three"]);
    assert_eq!(got1, got2);
}
