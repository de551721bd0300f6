use rumqttc_native::text::{
    decimal_text, join, lossy_text, payload_text, skip_chars, starts_with,
};

#[test]
fn decimal_numbers() {
    assert_eq!(decimal_text(0), "0");
    assert_eq!(decimal_text(9), "9");
    assert_eq!(decimal_text(10), "10");
    assert_eq!(decimal_text(1883), "1883");
    assert_eq!(decimal_text(65535), "65535");
    assert_eq!(decimal_text(1234567890), "1234567890");
    assert_eq!(decimal_text(u32::MAX), "4294967295");
}

#[test]
fn prefixes() {
    assert!(starts_with("tcp://host", "tcp://"));
    assert!(starts_with("tcp://", "tcp://"));
    assert!(!starts_with("tcp:/", "tcp://"));
    assert!(!starts_with("xtcp://", "tcp://"));
    assert!(starts_with("anything", ""));
    assert!(starts_with("主机", "主"));
}

#[test]
fn skipping_counts_characters() {
    assert_eq!(skip_chars("tcp://host", 6), "host");
    assert_eq!(skip_chars("主机a", 1), "机a");
    assert_eq!(skip_chars("abc", 3), "");
    assert_eq!(skip_chars("abc", 0), "abc");
}

#[test]
fn texts_are_joined() {
    assert_eq!(join("a", "b"), "ab");
    assert_eq!(join("", ""), "");
    assert_eq!(join("未连接: ", "x"), "未连接: x");
}

#[test]
fn utf8_payload_is_kept() {
    let text = "{\"温度\": 21.5, \"emoji\": \"🌡\"}";
    assert_eq!(payload_text(text.as_bytes()), text);
    assert_eq!(lossy_text(text.as_bytes()), text);
    assert_eq!(payload_text(b""), "");
    assert_eq!(payload_text(b"a\0b"), "a\0b");
}

#[test]
fn malformed_payload_is_replaced() {
    assert_eq!(payload_text(&[0x68, 0xff, 0x69]), "h\u{fffd}i");
    assert_eq!(lossy_text(&[0x68, 0xff, 0x69]), "h\u{fffd}i");
    assert_eq!(payload_text(&[0xe4, 0xb8]), "\u{fffd}");
}
