use rumqttc_native::bridge::publish_request;
use rumqttc_native::client::{
    send_report, thread_name, NativeMqttCore, PublishStep, SenderAction, SenderEvent, SenderTask,
    ShutdownAction, ShutdownPlan, Unpublished, WORKER_THREADS,
};
use rumqttc_native::config::{MqttConfig, QoS};
use rumqttc_native::queues::{open_queues, NotQueued, PublishRequest};
use rumqttc_native::session::{Reaction, SessionEvent};

fn idle() -> NativeMqttCore {
    NativeMqttCore::new(Ok(())).ok().unwrap()
}

fn config() -> MqttConfig {
    let mut config = MqttConfig::default();
    config.host = "localhost".to_string();
    config.client_id = "device-001".to_string();
    config
}

fn request(payload: &[u8]) -> PublishRequest {
    PublishRequest {
        topic: "topic1".to_string(),
        payload: payload.to_vec(),
        qos: QoS::AtLeastOnce,
    }
}

fn failed() -> SessionEvent {
    SessionEvent::Failed { cause: "Connection reset by peer".to_string() }
}

fn report(core: &NativeMqttCore, payload: &[u8]) -> Option<String> {
    match core.publish_sender(request(payload)) {
        PublishStep::Report(message) => Some(message),
        PublishStep::Send { .. } => None,
    }
}

#[test]
fn threads_for_the_background() {
    assert_eq!(WORKER_THREADS, 2);
    assert_eq!(thread_name(0), "mqtt-io-0");
    assert_eq!(thread_name(1), "mqtt-io-1");
    assert_eq!(thread_name(10), "mqtt-io-10");
}

#[test]
fn client_without_threads() {
    let refused = NativeMqttCore::new(Err("out of memory".to_string()));
    assert_eq!(refused.err().unwrap(), "创建 Tokio runtime 失败: out of memory");
}

#[test]
fn new_client_is_not_connected() {
    assert!(!idle().is_connected());
}

#[test]
fn connecting_needs_callbacks() {
    let mut core = idle();
    assert!(core.connect(config()).is_none());
    assert!(matches!(
        core.publish("t".to_string(), vec![], QoS::AtMostOnce),
        Err(Unpublished { refusal: NotQueued::NotStarted(_), notice: None })
    ));
}

#[test]
fn queues_have_the_room_that_was_asked_for() {
    let queues = open_queues(10000);
    assert_eq!(queues.msg_tx.max_capacity(), 10000);
    assert_eq!(queues.msg_rx.max_capacity(), 10000);
    assert_eq!(queues.publish_tx.max_capacity(), 200);
    assert_eq!(queues.publish_rx.max_capacity(), 200);
    assert!(queues.msg_tx.same_channel(&queues.msg_tx.clone()));
}

#[test]
fn received_messages_are_taken_out_where_they_belong() {
    let mut core = idle();
    let (msg_tx, mut msg_rx, _publish_rx) = core.start_queues(2);
    for payload in ["one", "two"] {
        let message = rumqttc_native::queues::MqttMessage {
            topic: "t".to_string(),
            payload: payload.to_string(),
        };
        assert!(msg_tx.try_send(message).is_ok());
    }
    assert_eq!(msg_tx.capacity(), 0);
    assert_eq!(msg_rx.try_recv().ok().unwrap().payload, "one");
    assert_eq!(msg_rx.try_recv().ok().unwrap().payload, "two");
}

#[test]
fn published_messages_wait_in_order() {
    let mut core = idle();
    let (_msg_tx, _msg_rx, mut publish_rx) = core.start_queues(10);
    assert!(core.publish("t1".to_string(), vec![1], QoS::AtMostOnce).is_ok());
    assert!(core.publish("t2".to_string(), vec![2, 3], QoS::ExactlyOnce).is_ok());
    let first = publish_rx.try_recv().ok().unwrap();
    assert_eq!((first.topic.as_str(), first.payload, first.qos), ("t1", vec![1], QoS::AtMostOnce));
    let second = publish_rx.try_recv().ok().unwrap();
    assert_eq!(
        (second.topic.as_str(), second.payload, second.qos),
        ("t2", vec![2, 3], QoS::ExactlyOnce)
    );
    assert!(publish_rx.try_recv().is_err());
}

#[test]
fn full_queue_gives_the_message_back() {
    let mut core = idle();
    let (_msg_tx, _msg_rx, _publish_rx) = core.start_queues(10);
    for _ in 0..200 {
        assert!(core.publish("t".to_string(), vec![0], QoS::AtMostOnce).is_ok());
    }
    match core.publish("late".to_string(), vec![9], QoS::AtLeastOnce) {
        Err(Unpublished { refusal: NotQueued::Full(returned), notice: None }) => {
            let request = returned.request();
            assert_eq!(request.topic, "late");
            assert_eq!(request.payload, vec![9]);
            assert_eq!(request.qos, QoS::AtLeastOnce);
        }
        _ => panic!(),
    }
}

#[test]
fn closed_queue_gives_the_message_back() {
    let mut core = idle();
    let (_msg_tx, _msg_rx, publish_rx) = core.start_queues(10);
    drop(publish_rx);
    match core.publish("t".to_string(), vec![9], QoS::AtMostOnce) {
        Err(Unpublished { refusal: NotQueued::Closed(returned), notice: None }) => {
            assert_eq!(returned.request().payload, vec![9]);
        }
        _ => panic!(),
    }
}

#[test]
fn request_without_a_topic_is_ignored() {
    let mut core = idle();
    let (_msg_tx, _msg_rx, mut publish_rx) = core.start_queues(10);
    assert!(publish_request(&core.publisher(), String::new(), vec![1], 0).is_none());
    assert!(publish_rx.try_recv().is_err());
}

#[test]
fn request_is_queued_with_its_level() {
    let mut core = idle();
    assert!(matches!(
        publish_request(&core.publisher(), "t".to_string(), vec![1], 2),
        Some(Err(Unpublished { refusal: NotQueued::NotStarted(_), notice: None }))
    ));
    let (_msg_tx, _msg_rx, mut publish_rx) = core.start_queues(10);
    assert!(matches!(publish_request(&core.publisher(), "t".to_string(), vec![1], 2), Some(Ok(_))));
    assert_eq!(publish_rx.try_recv().ok().unwrap().qos, QoS::ExactlyOnce);
    assert!(matches!(publish_request(&core.publisher(), "t".to_string(), vec![1], 77), Some(Ok(_))));
    assert_eq!(publish_rx.try_recv().ok().unwrap().qos, QoS::AtMostOnce);
}

#[test]
fn message_is_dropped_while_not_connected() {
    let mut core = idle();
    assert_eq!(report(&core, b"hello").unwrap(), "未连接，消息丢弃: hello");
    let (_client, _event_loop, mut session) = core.start_event_loop(config());
    assert_eq!(report(&core, &[0x68, 0xff]).unwrap(), "未连接，消息丢弃: h\u{fffd}");
    core.event_loop(&mut session, SessionEvent::ConnAck);
    core.event_loop(&mut session, failed());
    assert_eq!(report(&core, b"hello").unwrap(), "未连接，消息丢弃: hello");
}

#[test]
fn message_is_sent_while_connected() {
    let mut core = idle();
    let (_client, event_loop, mut session) = core.start_event_loop(config());
    assert_eq!(event_loop.mqtt_options.broker_address().0, "localhost");
    core.event_loop(&mut session, SessionEvent::ConnAck);
    match core.publish_sender(request(b"hello")) {
        PublishStep::Send { client, request, retain } => {
            assert_eq!(request.topic, "topic1");
            assert_eq!(request.payload, b"hello");
            assert_eq!(request.qos, QoS::AtLeastOnce);
            assert!(!retain);
            let sent = client.try_publish("t", rumqttc::QoS::AtMostOnce, retain, request.payload);
            assert!(sent.is_ok());
        }
        PublishStep::Report(_) => panic!(),
    }
}

#[test]
fn message_is_dropped_without_a_handle() {
    let mut core = idle();
    let (_client, _event_loop, mut session) = core.start_event_loop(config());
    core.event_loop(&mut session, SessionEvent::ConnAck);
    assert!(matches!(
        core.event_loop(&mut session, SessionEvent::Cancelled),
        Reaction::Stop
    ));
    assert!(core.is_connected());
    assert_eq!(report(&core, b"hello").unwrap(), "client 不存在，丢弃消息: hello");
}

#[test]
fn failure_keeps_the_handle() {
    let mut core = idle();
    let (_client, _event_loop, mut session) = core.start_event_loop(config());
    core.event_loop(&mut session, SessionEvent::ConnAck);
    core.event_loop(&mut session, failed());
    core.event_loop(&mut session, SessionEvent::WaitOver);
    core.event_loop(&mut session, SessionEvent::ConnAck);
    assert!(report(&core, b"hello").is_none());
}

#[test]
fn handle_is_kept_where_the_wait_was_cut_short() {
    let mut core = idle();
    let (_client, _event_loop, mut session) = core.start_event_loop(config());
    core.event_loop(&mut session, SessionEvent::ConnAck);
    assert!(matches!(
        core.event_loop(&mut session, SessionEvent::WaitCancelled),
        Reaction::Stop
    ));
    assert!(report(&core, b"hello").is_none());
}

#[test]
fn connection_comes_and_goes() {
    let mut core = idle();
    let (_client, _event_loop, mut session) = core.start_event_loop(config());
    assert!(!core.is_connected());
    core.event_loop(&mut session, failed());
    assert!(!core.is_connected());
    core.event_loop(&mut session, SessionEvent::ConnAck);
    assert!(core.is_connected());
    core.event_loop(&mut session, SessionEvent::Other);
    assert!(core.is_connected());
    match core.event_loop(&mut session, failed()) {
        Reaction::Wait { lost, secs } => {
            assert_eq!(lost.unwrap(), "Connection reset by peer");
            assert_eq!(secs, 10);
        }
        _ => panic!(),
    }
    assert!(!core.is_connected());
    assert!(matches!(
        core.event_loop(&mut session, failed()),
        Reaction::Wait { lost: None, secs: 10 }
    ));
    core.event_loop(&mut session, SessionEvent::ConnAck);
    assert!(core.is_connected());
}

#[test]
fn stopped_session_changes_nothing() {
    let mut core = idle();
    let (_client, _event_loop, mut session) = core.start_event_loop(config());
    core.event_loop(&mut session, SessionEvent::QueueClosed);
    assert!(matches!(
        core.event_loop(&mut session, SessionEvent::ConnAck),
        Reaction::Stop
    ));
    assert!(!core.is_connected());
}

#[test]
fn reports_of_sending() {
    assert!(send_report("topic1", Ok(())).is_none());
    assert_eq!(
        send_report("topic1", Err("channel closed".to_string())).unwrap(),
        "发布失败: topic1 - channel closed"
    );
}

#[test]
fn shutdown_is_done_once_and_in_order() {
    let mut core = idle();
    let (_client, _event_loop, mut session) = core.start_event_loop(config());
    core.event_loop(&mut session, SessionEvent::ConnAck);
    let mut task = core.shutdown().unwrap();
    assert!(core.shutdown().is_none());
    assert_eq!(task.step(&mut core), ShutdownAction::Signal);
    assert!(core.is_connected());
    let plan = ShutdownPlan { settle_millis: 500, limit_secs: 3 };
    assert_eq!(task.step(&mut core), ShutdownAction::Wait(plan));
    assert!(core.is_connected());
    assert_eq!(task.step(&mut core), ShutdownAction::Finished);
    assert!(!core.is_connected());
    assert_eq!(report(&core, b"x").unwrap(), "未连接，消息丢弃: x");
    assert_eq!(task.step(&mut core), ShutdownAction::Finished);
    assert!(core.shutdown().is_none());
    assert!(!core.is_connected());
}

#[test]
fn new_client_has_no_callbacks() {
    let core = idle();
    assert!(core.get_callbacks().is_none());
    assert!(core.publisher().callbacks.is_none());
}

#[test]
fn each_request_has_its_outcome_in_order() {
    let mut core = idle();
    let (_client, _event_loop, mut session) = core.start_event_loop(config());
    let mut task = SenderTask::new();
    let mut outcomes = Vec::new();
    for i in 0..4 {
        if i == 1 {
            core.event_loop(&mut session, SessionEvent::ConnAck);
        }
        let payload = format!("m{}", i);
        let action = task.step(&core, SenderEvent::Received(request(payload.as_bytes())));
        let action = match action {
            SenderAction::Send { request, retain, .. } => {
                assert!(!retain);
                assert_eq!(request.payload, payload.as_bytes());
                let sent = if i == 2 { Err("gone".to_string()) } else { Ok(()) };
                task.step(&core, SenderEvent::Sent(sent))
            }
            other => other,
        };
        match action {
            SenderAction::Receive { report } => outcomes.push(report),
            _ => panic!(),
        }
    }
    assert_eq!(
        outcomes,
        vec![
            Some("未连接，消息丢弃: m0".to_string()),
            None,
            Some("发布失败: topic1 - gone".to_string()),
            None,
        ]
    );
    assert!(matches!(task.step(&core, SenderEvent::Closed), SenderAction::Stop));
    assert!(matches!(
        task.step(&core, SenderEvent::Received(request(b"late"))),
        SenderAction::Stop
    ));
}

#[test]
fn publisher_outlives_the_look_at_the_client() {
    let mut core = idle();
    let (_msg_tx, _msg_rx, mut publish_rx) = core.start_queues(10);
    let publisher = core.publisher();
    core.shutdown();
    assert!(publisher.publish("t".to_string(), vec![5], QoS::AtMostOnce).is_ok());
    assert_eq!(publish_rx.try_recv().ok().unwrap().payload, vec![5]);
}
