use rumqttc_native::config::{MqttConfig, QoS};
use rumqttc_native::session::{server_uri, Reaction, Session, SessionEvent, Subscriptions};

fn config() -> MqttConfig {
    let mut config = MqttConfig::default();
    config.host = "192.168.1.100".to_string();
    config.client_id = "device-001".to_string();
    config.topics = vec!["a/#".to_string(), "b/+/c".to_string()];
    config.qos = QoS::ExactlyOnce;
    config.reconnect_interval_secs = 7;
    config
}

fn failed(cause: &str) -> SessionEvent {
    SessionEvent::Failed { cause: cause.to_string() }
}

fn publish(topic: &str, payload: &[u8]) -> SessionEvent {
    SessionEvent::Publish { topic: topic.to_string(), payload: payload.to_vec() }
}

#[test]
fn address_is_host_and_port() {
    assert_eq!(server_uri(&config()), "192.168.1.100:1883");
    assert_eq!(Session::new(config()).server_uri(), "192.168.1.100:1883");
    let mut other = config();
    other.port = 0;
    assert_eq!(server_uri(&other), "192.168.1.100:0");
}

#[test]
fn first_connection_is_announced_and_subscribed() {
    let mut session = Session::new(config());
    match session.react(false, SessionEvent::ConnAck) {
        Reaction::Announce { reconnect, server_uri, topics, qos } => {
            assert!(!reconnect);
            assert_eq!(server_uri, "192.168.1.100:1883");
            assert_eq!(topics, vec!["a/#", "b/+/c"]);
            assert_eq!(qos, QoS::ExactlyOnce);
        }
        _ => panic!(),
    }
}

#[test]
fn later_connections_are_reconnections() {
    let mut session = Session::new(config());
    session.react(false, SessionEvent::ConnAck);
    for _ in 0..3 {
        session.react(true, failed("gone"));
        session.react(false, SessionEvent::WaitOver);
        match session.react(false, SessionEvent::ConnAck) {
            Reaction::Announce { reconnect, topics, .. } => {
                assert!(reconnect);
                assert_eq!(topics, vec!["a/#", "b/+/c"]);
            }
            _ => panic!(),
        }
    }
}

#[test]
fn failed_attempts_do_not_make_the_first_connection_a_reconnection() {
    let mut session = Session::new(config());
    session.react(false, failed("refused"));
    session.react(false, SessionEvent::WaitOver);
    assert!(matches!(
        session.react(false, SessionEvent::ConnAck),
        Reaction::Announce { reconnect: false, .. }
    ));
}

#[test]
fn loss_is_told_while_connected() {
    let mut session = Session::new(config());
    session.react(false, SessionEvent::ConnAck);
    match session.react(true, failed("Connection reset by peer")) {
        Reaction::Wait { lost, secs } => {
            assert_eq!(lost.unwrap(), "Connection reset by peer");
            assert_eq!(secs, 7);
        }
        _ => panic!(),
    }
}

#[test]
fn failure_is_silent_while_not_connected() {
    let mut session = Session::new(config());
    assert!(matches!(
        session.react(false, failed("refused")),
        Reaction::Wait { lost: None, secs: 7 }
    ));
}

#[test]
fn session_goes_on_after_any_number_of_failures() {
    let mut session = Session::new(config());
    for _ in 0..1000 {
        assert!(matches!(
            session.react(false, failed("refused")),
            Reaction::Wait { lost: None, secs: 7 }
        ));
        assert!(matches!(session.react(false, SessionEvent::WaitOver), Reaction::Poll));
    }
    assert!(!session.is_stopped());
}

#[test]
fn messages_are_queued_in_order() {
    let mut session = Session::new(config());
    session.react(false, SessionEvent::ConnAck);
    let mut seen = Vec::new();
    for (topic, payload) in [("a/1", "one".as_bytes()), ("a/2", "二".as_bytes()), ("b/x/c", &[0xff])]
    {
        match session.react(true, publish(topic, payload)) {
            Reaction::Enqueue(message) => seen.push((message.topic, message.payload)),
            _ => panic!(),
        }
        assert!(matches!(session.react(true, SessionEvent::Queued), Reaction::Poll));
    }
    assert_eq!(
        seen,
        vec![
            ("a/1".to_string(), "one".to_string()),
            ("a/2".to_string(), "二".to_string()),
            ("b/x/c".to_string(), "\u{fffd}".to_string()),
        ]
    );
}

#[test]
fn other_events_are_passed_over() {
    let mut session = Session::new(config());
    assert!(matches!(session.react(true, SessionEvent::Other), Reaction::Poll));
    assert!(matches!(session.react(false, SessionEvent::Other), Reaction::Poll));
    assert!(!session.is_stopped());
}

#[test]
fn stopping_events_stop_for_good() {
    for i in 0..3 {
        let mut session = Session::new(config());
        let event = match i {
            0 => SessionEvent::Cancelled,
            1 => SessionEvent::QueueClosed,
            _ => SessionEvent::WaitCancelled,
        };
        assert!(matches!(session.react(true, event), Reaction::Stop));
        assert!(session.is_stopped());
        assert!(matches!(session.react(true, SessionEvent::ConnAck), Reaction::Stop));
        assert!(matches!(session.react(true, publish("t", b"m")), Reaction::Stop));
        assert!(matches!(session.react(true, failed("x")), Reaction::Stop));
    }
}

#[test]
fn failed_subscription_keeps_no_topic_from_its_turn() {
    let topics = vec!["a".to_string(), "b".to_string(), "c".to_string()];
    let mut subscriptions = Subscriptions::new(topics, QoS::AtLeastOnce);
    let first = subscriptions.step(None).unwrap();
    assert_eq!(first, ("a".to_string(), QoS::AtLeastOnce));
    let second = subscriptions.step(Some(Err("refused".to_string()))).unwrap();
    assert_eq!(second, ("b".to_string(), QoS::AtLeastOnce));
    let third = subscriptions.step(Some(Ok(()))).unwrap();
    assert_eq!(third, ("c".to_string(), QoS::AtLeastOnce));
    assert!(subscriptions.step(Some(Err("refused".to_string()))).is_none());
    assert!(subscriptions.step(None).is_none());
}

#[test]
fn no_topics_need_no_subscription() {
    assert!(Subscriptions::new(Vec::new(), QoS::AtMostOnce).step(None).is_none());
}
