use fcm::wire::{token_json, WireToken};
use fcm::{AndroidMessagePriority, NotificationPriority, Visibility};

fn written(doc: &fcm::Json) -> String {
    String::from_utf8(doc.to_bytes()).unwrap()
}

#[test]
fn android_message_priority_tokens() {
    assert_eq!(AndroidMessagePriority::Normal.token(), "NORMAL");
    assert_eq!(AndroidMessagePriority::High.token(), "HIGH");
    assert_eq!(written(&token_json(&AndroidMessagePriority::High)), "\"HIGH\"");
}

#[test]
fn notification_priority_tokens() {
    assert_eq!(NotificationPriority::PriorityUnspecified.token(), "PRIORITY_UNSPECIFIED");
    assert_eq!(NotificationPriority::PriorityMin.token(), "PRIORITY_MIN");
    assert_eq!(NotificationPriority::PriorityLow.token(), "PRIORITY_LOW");
    assert_eq!(NotificationPriority::PriorityDefault.token(), "PRIORITY_DEFAULT");
    assert_eq!(NotificationPriority::PriorityHigh.token(), "PRIORITY_HIGH");
    assert_eq!(NotificationPriority::PriorityMax.token(), "PRIORITY_MAX");
    assert_eq!(written(&token_json(&NotificationPriority::PriorityMax)), "\"PRIORITY_MAX\"");
}

#[test]
fn visibility_tokens() {
    assert_eq!(Visibility::VisibilityUnspecified.token(), "VISIBILITY_UNSPECIFIED");
    assert_eq!(Visibility::Private.token(), "PRIVATE");
    assert_eq!(Visibility::Public.token(), "PUBLIC");
    assert_eq!(Visibility::Secret.token(), "SECRET");
}
