use fcm::client::payload;
use fcm::json::Json;
use fcm::message::MessageWrapper;
use fcm::{
    AndroidConfig, AndroidMessagePriority, ApnsConfig, FcmOptions, Message, Notification, Target,
    WebpushConfig, WireBlock,
};

fn written(doc: &Json) -> String {
    String::from_utf8(doc.to_bytes()).unwrap()
}

fn bare(target: Target) -> Message {
    Message {
        data: None,
        notification: None,
        target,
        android: None,
        webpush: None,
        apns: None,
        fcm_options: None,
    }
}

fn keys(doc: &Json) -> Vec<String> {
    match doc {
        Json::Object(members) => members.iter().map(|m| m.0.clone()).collect(),
        _ => panic!("not an object"),
    }
}

#[test]
fn token_target_is_one_top_level_key() {
    let m = bare(Target::Token("abc".to_string()));
    let doc = m.finalize().to_json();
    assert_eq!(keys(&doc), vec!["token".to_string()]);
    assert_eq!(written(&doc), "{\"token\":\"abc\"}");
}

#[test]
fn topic_target_is_one_top_level_key() {
    let m = bare(Target::Topic("news".to_string()));
    let doc = m.finalize().to_json();
    assert_eq!(keys(&doc), vec!["topic".to_string()]);
    assert_eq!(written(&doc), "{\"topic\":\"news\"}");
}

#[test]
fn condition_target_is_one_top_level_key() {
    let m = bare(Target::Condition("'a' in topics && 'b' in topics".to_string()));
    let doc = m.finalize().to_json();
    assert_eq!(keys(&doc), vec!["condition".to_string()]);
    assert_eq!(written(&doc), "{\"condition\":\"'a' in topics && 'b' in topics\"}");
}

#[test]
fn target_entry_names_the_variant() {
    assert_eq!(Target::Token("x".to_string()).entry(), ("token", "x"));
    assert_eq!(Target::Topic("y".to_string()).entry(), ("topic", "y"));
    assert_eq!(Target::Condition("z".to_string()).entry(), ("condition", "z"));
}

#[test]
fn target_text_is_not_checked_or_changed() {
    let m = bare(Target::Topic("/topics/ not a valid name!".to_string()));
    assert_eq!(written(&m.finalize().to_json()), "{\"topic\":\"/topics/ not a valid name!\"}");
    let m = bare(Target::Token(String::new()));
    assert_eq!(written(&m.finalize().to_json()), "{\"token\":\"\"}");
}

#[test]
fn absent_blocks_are_left_out_and_never_written_as_null() {
    let m = bare(Target::Token("t".to_string()));
    let text = written(&m.finalize().to_json());
    assert!(!text.contains("null"));
    assert!(!text.contains("android"));
    assert!(!text.contains("webpush"));
    assert!(!text.contains("apns"));
    assert!(!text.contains("notification"));
    assert!(!text.contains("data"));
    assert!(!text.contains("fcm_options"));
}

#[test]
fn blank_blocks_that_are_present_are_written_as_empty_objects() {
    let m = Message {
        data: None,
        notification: Some(Notification::default()),
        target: Target::Token("t".to_string()),
        android: Some(AndroidConfig::default()),
        webpush: Some(WebpushConfig::default()),
        apns: Some(ApnsConfig::default()),
        fcm_options: Some(FcmOptions::default()),
    };
    assert_eq!(
        written(&m.finalize().to_json()),
        "{\"notification\":{},\"android\":{},\"webpush\":{},\"apns\":{},\"fcm_options\":{},\"token\":\"t\"}"
    );
}

#[test]
fn full_message_in_wire_order() {
    let m = Message {
        data: Some(Json::Object(vec![("k".to_string(), Json::String("v".to_string()))])),
        notification: Some(Notification { title: Some("T".to_string()), body: Some("B".to_string()), image: None }),
        target: Target::Topic("news".to_string()),
        android: Some(AndroidConfig { priority: Some(AndroidMessagePriority::High), ..AndroidConfig::default() }),
        webpush: None,
        apns: None,
        fcm_options: Some(FcmOptions { analytics_label: Some("l".to_string()) }),
    };
    assert_eq!(
        written(&m.finalize().to_json()),
        "{\"data\":{\"k\":\"v\"},\"notification\":{\"title\":\"T\",\"body\":\"B\"},\"android\":{\"priority\":\"HIGH\"},\"fcm_options\":{\"analytics_label\":\"l\"},\"topic\":\"news\"}"
    );
}

#[test]
fn finalize_borrows_the_target() {
    let m = bare(Target::Token("abc".to_string()));
    let wire = m.finalize();
    assert!(std::ptr::eq(wire.target, &m.target));
    assert!(wire.data.is_none());
    assert!(wire.android.is_none());
}

#[test]
fn wrapper_puts_the_message_under_one_key() {
    let m = bare(Target::Token("abc".to_string()));
    let wire = m.finalize();
    let wrapper = MessageWrapper::new(&wire);
    let doc = wrapper.to_json();
    assert_eq!(keys(&doc), vec!["message".to_string()]);
    assert_eq!(written(&doc), "{\"message\":{\"token\":\"abc\"}}");
}

#[test]
fn payload_is_the_envelope_as_json_text() {
    let m = Message {
        data: None,
        notification: Some(Notification { title: Some("Hi".to_string()), body: None, image: None }),
        target: Target::Token("abc".to_string()),
        android: None,
        webpush: None,
        apns: None,
        fcm_options: None,
    };
    assert_eq!(
        String::from_utf8(payload(&m)).unwrap(),
        "{\"message\":{\"notification\":{\"title\":\"Hi\"},\"token\":\"abc\"}}"
    );
}
