use rumqttc_native::broker::open;
use rumqttc_native::config::{
    port_from_int, secs_or, size_or, strip_scheme, ConnectParams, MqttConfig, QoS,
};

fn params() -> ConnectParams {
    ConnectParams {
        host: "192.168.1.100".to_string(),
        port: 1883,
        client_id: "device-001".to_string(),
        username: "user".to_string(),
        password: "pass".to_string(),
        qos: 1,
        keep_alive_secs: 30,
        reconnect_interval_secs: 7,
        message_buffer_size: 50000,
        clean_session: false,
        connection_timeout_secs: 9,
        topics: vec!["topic1".to_string(), "topic2".to_string()],
    }
}

#[test]
fn default_settings() {
    let config = MqttConfig::default();
    assert_eq!(config.host, "");
    assert_eq!(config.port, 1883);
    assert_eq!(config.client_id, "");
    assert_eq!(config.username, "");
    assert_eq!(config.password, "");
    assert!(config.topics.is_empty());
    assert_eq!(config.qos, QoS::AtMostOnce);
    assert_eq!(config.keep_alive_secs, 10);
    assert_eq!(config.reconnect_interval_secs, 10);
    assert!(config.clean_session);
    assert_eq!(config.message_buffer_size, 10000);
    assert_eq!(config.connection_timeout_secs, 5);
}

#[test]
fn default_settings_can_be_changed_one_by_one() {
    let mut config = MqttConfig::default();
    config.host = "192.168.1.100".to_string();
    config.port = 1883;
    config.client_id = "device-001".to_string();
    config.topics = vec!["/device/data/#".to_string()];
    assert_eq!(config.host, "192.168.1.100");
    assert_eq!(config.topics.len(), 1);
    assert_eq!(config.keep_alive_secs, 10);
}

#[test]
fn qos_codes() {
    assert_eq!(QoS::from_code(0), QoS::AtMostOnce);
    assert_eq!(QoS::from_code(1), QoS::AtLeastOnce);
    assert_eq!(QoS::from_code(2), QoS::ExactlyOnce);
    assert_eq!(QoS::from_code(3), QoS::AtMostOnce);
    assert_eq!(QoS::from_code(-1), QoS::AtMostOnce);
    assert_eq!(QoS::from_code(i32::MAX), QoS::AtMostOnce);
}

#[test]
fn passed_values_are_taken_over() {
    let config = MqttConfig::from_params(params()).ok().unwrap();
    assert_eq!(config.host, "192.168.1.100");
    assert_eq!(config.port, 1883);
    assert_eq!(config.client_id, "device-001");
    assert_eq!(config.username, "user");
    assert_eq!(config.password, "pass");
    assert_eq!(config.topics, vec!["topic1", "topic2"]);
    assert_eq!(config.qos, QoS::AtLeastOnce);
    assert_eq!(config.keep_alive_secs, 30);
    assert_eq!(config.reconnect_interval_secs, 7);
    assert!(!config.clean_session);
    assert_eq!(config.message_buffer_size, 50000);
    assert_eq!(config.connection_timeout_secs, 9);
}

#[test]
fn numbers_that_are_not_positive_stand_for_defaults() {
    for value in [0, -1, i32::MIN] {
        let mut p = params();
        p.keep_alive_secs = value;
        p.reconnect_interval_secs = value;
        p.message_buffer_size = value;
        p.connection_timeout_secs = value;
        let config = MqttConfig::from_params(p).ok().unwrap();
        assert_eq!(config.keep_alive_secs, 10);
        assert_eq!(config.reconnect_interval_secs, 10);
        assert_eq!(config.message_buffer_size, 10000);
        assert_eq!(config.connection_timeout_secs, 5);
    }
}

#[test]
fn smallest_and_largest_positive_numbers() {
    assert_eq!(secs_or(1, 10), 1);
    assert_eq!(secs_or(0, 10), 10);
    assert_eq!(secs_or(i32::MAX, 10), 2147483647);
    assert_eq!(size_or(1, 10000), 1);
    assert_eq!(size_or(-5, 10000), 10000);
    assert_eq!(size_or(i32::MAX, 10000), 2147483647);
}

#[test]
fn schemes_are_taken_away() {
    assert_eq!(strip_scheme("tcp://192.168.1.100".to_string()), "192.168.1.100");
    assert_eq!(strip_scheme("ssl://mqtt.example.com".to_string()), "mqtt.example.com");
    assert_eq!(strip_scheme("192.168.1.100".to_string()), "192.168.1.100");
    assert_eq!(strip_scheme("tcp://".to_string()), "");
    assert_eq!(strip_scheme("tcp:/".to_string()), "tcp:/");
    assert_eq!(strip_scheme("TCP://host".to_string()), "TCP://host");
    assert_eq!(strip_scheme("mqtt://host".to_string()), "mqtt://host");
    assert_eq!(strip_scheme("".to_string()), "");
    assert_eq!(strip_scheme("tcp://主机".to_string()), "主机");
}

#[test]
fn only_one_scheme_is_taken_away() {
    assert_eq!(strip_scheme("tcp://ssl://host".to_string()), "ssl://host");
    assert_eq!(strip_scheme("tcp://tcp://host".to_string()), "tcp://host");
}

#[test]
fn host_is_the_same_with_and_without_a_scheme() {
    let mut with = params();
    with.host = "tcp://192.168.1.100".to_string();
    let with = MqttConfig::from_params(with).ok().unwrap();
    let without = MqttConfig::from_params(params()).ok().unwrap();
    assert_eq!(with.host, without.host);
}

#[test]
fn ports_wrap_round() {
    assert_eq!(port_from_int(1883), 1883);
    assert_eq!(port_from_int(0), 0);
    assert_eq!(port_from_int(65535), 65535);
    assert_eq!(port_from_int(65536), 0);
    assert_eq!(port_from_int(65536 + 1883), 1883);
    assert_eq!(port_from_int(-1), 65535);
    assert_eq!(port_from_int(i32::MIN), 0);
}

#[test]
fn empty_host_is_rejected() {
    let mut p = params();
    p.host = String::new();
    assert_eq!(
        MqttConfig::from_params(p).err().unwrap(),
        "host 或 clientId 为空，无法连接 (host='', clientId='device-001')",
    );
}

#[test]
fn host_that_is_only_a_scheme_is_rejected() {
    let mut p = params();
    p.host = "ssl://".to_string();
    assert_eq!(
        MqttConfig::from_params(p).err().unwrap(),
        "host 或 clientId 为空，无法连接 (host='', clientId='device-001')",
    );
}

#[test]
fn empty_client_id_is_rejected() {
    let mut p = params();
    p.host = "tcp://192.168.1.100".to_string();
    p.client_id = String::new();
    assert_eq!(
        MqttConfig::from_params(p).err().unwrap(),
        "host 或 clientId 为空，无法连接 (host='192.168.1.100', clientId='')",
    );
}

#[test]
fn connection_is_set_up_as_configured() {
    let config = MqttConfig::from_params(params()).ok().unwrap();
    let (client, event_loop) = open(&config);
    let options = &event_loop.mqtt_options;
    assert_eq!(options.client_id(), "device-001");
    assert_eq!(options.broker_address(), ("192.168.1.100".to_string(), 1883));
    assert_eq!(options.keep_alive().as_secs(), 30);
    assert!(!options.clean_session());
    let login = options.credentials().unwrap();
    assert_eq!(login.username, "user");
    assert_eq!(login.password, "pass");
    assert_eq!(event_loop.network_options.connection_timeout(), 9);
    for i in 0..1000 {
        assert!(client.try_publish("t", rumqttc::QoS::AtMostOnce, false, vec![i as u8]).is_ok());
    }
    assert!(client.try_publish("t", rumqttc::QoS::AtMostOnce, false, vec![0]).is_err());
}

#[test]
fn password_without_user_is_ignored() {
    let mut p = params();
    p.username = String::new();
    p.clean_session = true;
    let config = MqttConfig::from_params(p).ok().unwrap();
    let (_client, event_loop) = open(&config);
    assert!(event_loop.mqtt_options.credentials().is_none());
    assert!(event_loop.mqtt_options.clean_session());
}

#[test]
fn fresh_session_needs_no_client_id() {
    let mut config = MqttConfig::default();
    config.host = "localhost".to_string();
    let (_client, event_loop) = open(&config);
    assert_eq!(event_loop.mqtt_options.client_id(), "");
    assert_eq!(event_loop.mqtt_options.keep_alive().as_secs(), 10);
    assert_eq!(event_loop.network_options.connection_timeout(), 5);
}
