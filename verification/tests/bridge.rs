use rumqttc_native::bridge::{bytes_or_empty, drop_empty, text_or_empty};

#[test]
fn unread_text_is_empty() {
    assert_eq!(text_or_empty(None), "");
    assert_eq!(text_or_empty(Some("主题".to_string())), "主题");
}

#[test]
fn unread_bytes_are_none() {
    assert!(bytes_or_empty(None).is_empty());
    assert_eq!(bytes_or_empty(Some(vec![0, 255])), vec![0, 255]);
}

#[test]
fn empty_texts_are_left_out() {
    let texts = ["", "a", "", "", "b", " ", ""];
    let strings: Vec<String> = texts.iter().map(|s| s.to_string()).collect();
    assert_eq!(drop_empty(strings), vec!["a", "b", " "]);
    assert!(drop_empty(Vec::new()).is_empty());
    assert!(drop_empty(vec![String::new()]).is_empty());
}
