use rumqttc_native::callbacks::{ERR_INIT_FAILED, ERR_INVALID_PARAMS, ERR_PUBLISH_FAILED};
use rumqttc_native::calls::{Delivery, JavaArg, JavaCall, Outcome, Stage};

fn is_text(arg: &JavaArg, text: &str) -> bool {
    matches!(arg, JavaArg::Text(s) if s == text)
}

#[test]
fn error_codes() {
    assert_eq!(ERR_INVALID_PARAMS, 1);
    assert_eq!(ERR_INIT_FAILED, 2);
    assert_eq!(ERR_PUBLISH_FAILED, 3);
}

#[test]
fn connect_complete_call() {
    let call = JavaCall::connect_complete(true, "192.168.1.100:1883");
    assert_eq!(call.method, "connectComplete");
    assert_eq!(call.signature, "(ZLjava/lang/String;)V");
    assert_eq!(call.args.len(), 2);
    assert!(matches!(call.args[0], JavaArg::Bool(true)));
    assert!(is_text(&call.args[1], "192.168.1.100:1883"));
}

#[test]
fn connection_lost_call() {
    let call = JavaCall::connection_lost("Connection reset by peer");
    assert_eq!(call.method, "connectionLost");
    assert_eq!(call.signature, "(Ljava/lang/String;)V");
    assert_eq!(call.args.len(), 1);
    assert!(is_text(&call.args[0], "Connection reset by peer"));
}

#[test]
fn on_msg_call() {
    let call = JavaCall::on_msg("/device/001", "{}");
    assert_eq!(call.method, "onMsg");
    assert_eq!(call.signature, "(Ljava/lang/String;Ljava/lang/String;)V");
    assert_eq!(call.args.len(), 2);
    assert!(is_text(&call.args[0], "/device/001"));
    assert!(is_text(&call.args[1], "{}"));
}

#[test]
fn on_error_call() {
    let call = JavaCall::on_error(ERR_PUBLISH_FAILED, "x");
    assert_eq!(call.method, "onError");
    assert_eq!(call.signature, "(ILjava/lang/String;)V");
    assert_eq!(call.args.len(), 2);
    assert!(matches!(call.args[0], JavaArg::Int(3)));
    assert!(is_text(&call.args[1], "x"));
}

#[test]
fn arguments_fit_their_descriptors() {
    let calls = vec![
        JavaCall::connect_complete(false, "a"),
        JavaCall::connection_lost("a"),
        JavaCall::on_msg("a", "b"),
        JavaCall::on_error(1, "a"),
    ];
    for call in calls {
        let mut signature = "(".to_string();
        for arg in &call.args {
            signature.push_str(match arg {
                JavaArg::Bool(_) => "Z",
                JavaArg::Int(_) => "I",
                JavaArg::Text(_) => "Ljava/lang/String;",
            });
        }
        signature.push_str(")V");
        assert_eq!(call.signature, signature);
    }
}

#[test]
fn delivery_that_succeeds() {
    let mut delivery = Delivery::start(JavaCall::on_msg("t", "m"), true);
    assert_eq!(delivery.next(), Stage::Attach);
    assert_eq!(delivery.outcome(), None);
    delivery.step(true);
    assert_eq!(delivery.next(), Stage::MakeString(0));
    delivery.step(true);
    assert_eq!(delivery.next(), Stage::MakeString(1));
    delivery.step(true);
    assert_eq!(delivery.next(), Stage::Invoke);
    delivery.step(true);
    assert_eq!(delivery.outcome(), Some(Outcome::Delivered));
    delivery.step(false);
    assert_eq!(delivery.outcome(), Some(Outcome::Delivered));
    assert_eq!(delivery.java_call().method, "onMsg");
}

#[test]
fn strings_are_made_for_texts_only() {
    let mut delivery = Delivery::start(JavaCall::connect_complete(false, "uri"), true);
    delivery.step(true);
    assert_eq!(delivery.next(), Stage::MakeString(1));
    delivery.step(true);
    assert_eq!(delivery.next(), Stage::Invoke);
}

#[test]
fn delivery_without_a_thread() {
    let mut delivery = Delivery::start(JavaCall::connection_lost("c"), true);
    delivery.step(false);
    assert_eq!(delivery.outcome(), Some(Outcome::NotAttached));
}

#[test]
fn delivery_to_a_released_object() {
    let mut delivery = Delivery::start(JavaCall::connection_lost("c"), false);
    delivery.step(true);
    assert_eq!(delivery.outcome(), Some(Outcome::Released));
}

#[test]
fn delivery_without_a_string() {
    let mut delivery = Delivery::start(JavaCall::on_msg("t", "m"), true);
    delivery.step(true);
    delivery.step(true);
    delivery.step(false);
    assert_eq!(delivery.outcome(), Some(Outcome::StringRefused(1)));
}

#[test]
fn failed_call_clears_the_exception() {
    for cleared in [true, false] {
        let mut delivery = Delivery::start(JavaCall::on_error(1, "m"), true);
        delivery.step(true);
        delivery.step(true);
        assert_eq!(delivery.next(), Stage::Invoke);
        delivery.step(false);
        assert_eq!(delivery.next(), Stage::ClearException);
        assert_eq!(delivery.outcome(), None);
        delivery.step(cleared);
        assert_eq!(delivery.outcome(), Some(Outcome::CallFailed { cleared }));
    }
}

#[test]
fn every_delivery_ends() {
    for held in [true, false] {
        for replies in 0..32u32 {
            let mut delivery = Delivery::start(JavaCall::on_msg("t", "m"), held);
            for i in 0..5 {
                delivery.step((replies >> i) & 1 == 1);
            }
            assert!(delivery.outcome().is_some());
        }
    }
}
