use fcm::json::Json;
use fcm::{
    AndroidConfig, AndroidFcmOptions, AndroidMessagePriority, AndroidNotification, ApnsConfig,
    ApnsFcmOptions, Color, FcmOptions, LightSettings, Notification, NotificationPriority,
    Visibility, WebpushConfig, WebpushFcmOptions, WireBlock,
};

fn written(doc: &Json) -> String {
    String::from_utf8(doc.to_bytes()).unwrap()
}

fn text(s: &str) -> Option<String> {
    Some(s.to_string())
}

#[test]
fn blank_blocks_are_written_as_the_empty_object() {
    assert_eq!(written(&Notification::default().finalize().to_json()), "{}");
    assert_eq!(written(&FcmOptions::default().finalize().to_json()), "{}");
    assert_eq!(written(&AndroidConfig::default().finalize().to_json()), "{}");
    assert_eq!(written(&AndroidNotification::default().finalize().to_json()), "{}");
    assert_eq!(written(&AndroidFcmOptions::default().finalize().to_json()), "{}");
    assert_eq!(written(&LightSettings::default().finalize().to_json()), "{}");
    assert_eq!(written(&Color::default().finalize().to_json()), "{}");
    assert_eq!(written(&WebpushConfig::default().finalize().to_json()), "{}");
    assert_eq!(written(&WebpushFcmOptions::default().finalize().to_json()), "{}");
    assert_eq!(written(&ApnsConfig::default().finalize().to_json()), "{}");
    assert_eq!(written(&ApnsFcmOptions::default().finalize().to_json()), "{}");
}

#[test]
fn a_blank_block_that_is_present_is_kept_and_an_absent_one_is_left_out() {
    let with_blank = AndroidConfig { notification: Some(AndroidNotification::default()), ..AndroidConfig::default() };
    assert_eq!(written(&with_blank.finalize().to_json()), "{\"notification\":{}}");
    let without = AndroidConfig { notification: None, ..AndroidConfig::default() };
    assert_eq!(written(&without.finalize().to_json()), "{}");
}

#[test]
fn finalize_borrows_the_fields_as_they_are() {
    let n = AndroidNotification {
        title: text("t"),
        body_loc_args: Some(vec!["a".to_string(), "b".to_string()]),
        sticky: Some(false),
        notification_count: Some(3),
        notification_priority: Some(NotificationPriority::PriorityLow),
        ..AndroidNotification::default()
    };
    let wire = n.finalize();
    assert_eq!(wire.title, Some("t"));
    assert_eq!(wire.body, None);
    assert_eq!(wire.body_loc_args, Some(&["a".to_string(), "b".to_string()][..]));
    assert_eq!(wire.sticky, Some(false));
    assert_eq!(wire.notification_count, Some(3));
    assert_eq!(wire.notification_priority, Some(NotificationPriority::PriorityLow));
    assert!(wire.light_settings.is_none());
    assert_eq!(wire.title.unwrap().as_ptr(), n.title.as_ref().unwrap().as_ptr());
}

#[test]
fn single_text_field_of_android_notification() {
    let n = AndroidNotification { title: text("Hello"), ..AndroidNotification::default() };
    assert_eq!(written(&n.finalize().to_json()), "{\"title\":\"Hello\"}");
    let n = AndroidNotification { click_action: text("OPEN"), ..AndroidNotification::default() };
    assert_eq!(written(&n.finalize().to_json()), "{\"click_action\":\"OPEN\"}");
    let n = AndroidNotification { image: text("https://example.com/a.png"), ..AndroidNotification::default() };
    assert_eq!(written(&n.finalize().to_json()), "{\"image\":\"https://example.com/a.png\"}");
}

#[test]
fn single_flag_field_of_android_notification() {
    let n = AndroidNotification { sticky: Some(true), ..AndroidNotification::default() };
    assert_eq!(written(&n.finalize().to_json()), "{\"sticky\":true}");
    let n = AndroidNotification { default_sound: Some(false), ..AndroidNotification::default() };
    assert_eq!(written(&n.finalize().to_json()), "{\"default_sound\":false}");
}

#[test]
fn single_list_field_of_android_notification() {
    let n = AndroidNotification {
        vibrate_timings: Some(vec!["1s".to_string(), "0.5s".to_string()]),
        ..AndroidNotification::default()
    };
    assert_eq!(written(&n.finalize().to_json()), "{\"vibrate_timings\":[\"1s\",\"0.5s\"]}");
    let n = AndroidNotification { title_loc_args: Some(vec![]), ..AndroidNotification::default() };
    assert_eq!(written(&n.finalize().to_json()), "{\"title_loc_args\":[]}");
}

#[test]
fn single_integer_field_of_android_notification() {
    let n = AndroidNotification { notification_count: Some(42), ..AndroidNotification::default() };
    assert_eq!(written(&n.finalize().to_json()), "{\"notification_count\":42}");
    let n = AndroidNotification { notification_count: Some(i32::MIN), ..AndroidNotification::default() };
    assert_eq!(written(&n.finalize().to_json()), "{\"notification_count\":-2147483648}");
    let n = AndroidNotification { notification_count: Some(0), ..AndroidNotification::default() };
    assert_eq!(written(&n.finalize().to_json()), "{\"notification_count\":0}");
}

#[test]
fn single_token_field_of_android_notification() {
    let n = AndroidNotification {
        notification_priority: Some(NotificationPriority::PriorityMax),
        ..AndroidNotification::default()
    };
    assert_eq!(written(&n.finalize().to_json()), "{\"notification_priority\":\"PRIORITY_MAX\"}");
    let n = AndroidNotification { visibility: Some(Visibility::Secret), ..AndroidNotification::default() };
    assert_eq!(written(&n.finalize().to_json()), "{\"visibility\":\"SECRET\"}");
}

#[test]
fn android_notification_with_every_field() {
    let n = AndroidNotification {
        title: text("a"),
        body: text("b"),
        icon: text("c"),
        color: text("#112233"),
        sound: text("e"),
        tag: text("f"),
        click_action: text("g"),
        body_loc_key: text("h"),
        body_loc_args: Some(vec!["i".to_string()]),
        title_loc_key: text("j"),
        title_loc_args: Some(vec!["k".to_string()]),
        channel_id: text("l"),
        ticker: text("m"),
        sticky: Some(true),
        event_time: text("2014-10-02T15:01:23Z"),
        local_only: Some(false),
        notification_priority: Some(NotificationPriority::PriorityHigh),
        default_sound: Some(true),
        default_vibrate_timings: Some(false),
        default_light_settings: Some(true),
        vibrate_timings: Some(vec!["3.5s".to_string()]),
        visibility: Some(Visibility::Public),
        notification_count: Some(7),
        light_settings: Some(LightSettings {
            color: Some(Color { red: text("1"), green: text("0.5"), blue: text("0"), alpha: text("0.25") }),
            light_on_duration: text("1s"),
            light_off_duration: text("2s"),
        }),
        image: text("n"),
    };
    let expected = concat_all(&[
        "{\"title\":\"a\",\"body\":\"b\",\"icon\":\"c\",\"color\":\"#112233\",\"sound\":\"e\",\"tag\":\"f\",",
        "\"click_action\":\"g\",\"body_loc_key\":\"h\",\"body_loc_args\":[\"i\"],\"title_loc_key\":\"j\",",
        "\"title_loc_args\":[\"k\"],\"channel_id\":\"l\",\"ticker\":\"m\",\"sticky\":true,",
        "\"event_time\":\"2014-10-02T15:01:23Z\",\"local_only\":false,",
        "\"notification_priority\":\"PRIORITY_HIGH\",\"default_sound\":true,",
        "\"default_vibrate_timings\":false,\"default_light_settings\":true,\"vibrate_timings\":[\"3.5s\"],",
        "\"visibility\":\"PUBLIC\",\"notification_count\":7,",
        "\"light_settings\":{\"color\":{\"red\":1,\"green\":0.5,\"blue\":0,\"alpha\":0.25},",
        "\"light_on_duration\":\"1s\",\"light_off_duration\":\"2s\"},\"image\":\"n\"}",
    ]);
    assert_eq!(written(&n.finalize().to_json()), expected);
}

fn concat_all(parts: &[&str]) -> String {
    let mut out = String::new();
    for p in parts {
        out.push_str(p);
    }
    out
}

#[test]
fn single_fields_of_notification() {
    let n = Notification { title: text("T"), ..Notification::default() };
    assert_eq!(written(&n.finalize().to_json()), "{\"title\":\"T\"}");
    let n = Notification { body: text("B"), ..Notification::default() };
    assert_eq!(written(&n.finalize().to_json()), "{\"body\":\"B\"}");
    let n = Notification { image: text("I"), ..Notification::default() };
    assert_eq!(written(&n.finalize().to_json()), "{\"image\":\"I\"}");
}

#[test]
fn single_fields_of_the_option_blocks() {
    let o = FcmOptions { analytics_label: text("x") };
    assert_eq!(written(&o.finalize().to_json()), "{\"analytics_label\":\"x\"}");
    let o = AndroidFcmOptions { analytics_label: text("y") };
    assert_eq!(written(&o.finalize().to_json()), "{\"analytics_label\":\"y\"}");
    let o = ApnsFcmOptions { image: text("z"), ..ApnsFcmOptions::default() };
    assert_eq!(written(&o.finalize().to_json()), "{\"image\":\"z\"}");
    let o = WebpushFcmOptions { link: text("https://example.com"), ..WebpushFcmOptions::default() };
    assert_eq!(written(&o.finalize().to_json()), "{\"link\":\"https://example.com\"}");
}

#[test]
fn single_fields_of_android_config() {
    let c = AndroidConfig { collapse_key: text("k"), ..AndroidConfig::default() };
    assert_eq!(written(&c.finalize().to_json()), "{\"collapse_key\":\"k\"}");
    let c = AndroidConfig { priority: Some(AndroidMessagePriority::High), ..AndroidConfig::default() };
    assert_eq!(written(&c.finalize().to_json()), "{\"priority\":\"HIGH\"}");
    let c = AndroidConfig { ttl: text("3.5s"), ..AndroidConfig::default() };
    assert_eq!(written(&c.finalize().to_json()), "{\"ttl\":\"3.5s\"}");
    let c = AndroidConfig { direct_boot_ok: Some(true), ..AndroidConfig::default() };
    assert_eq!(written(&c.finalize().to_json()), "{\"direct_boot_ok\":true}");
    let data = Json::Object(vec![("k".to_string(), Json::String("v".to_string()))]);
    let c = AndroidConfig { data: Some(data), ..AndroidConfig::default() };
    assert_eq!(written(&c.finalize().to_json()), "{\"data\":{\"k\":\"v\"}}");
    let c = AndroidConfig {
        fcm_options: Some(AndroidFcmOptions { analytics_label: text("l") }),
        ..AndroidConfig::default()
    };
    assert_eq!(written(&c.finalize().to_json()), "{\"fcm_options\":{\"analytics_label\":\"l\"}}");
}

#[test]
fn single_fields_of_webpush_config() {
    let headers = Json::Object(vec![("TTL".to_string(), Json::String("60".to_string()))]);
    let c = WebpushConfig { headers: Some(headers), ..WebpushConfig::default() };
    assert_eq!(written(&c.finalize().to_json()), "{\"headers\":{\"TTL\":\"60\"}}");
    let c = WebpushConfig { data: Some(Json::Object(vec![])), ..WebpushConfig::default() };
    assert_eq!(written(&c.finalize().to_json()), "{\"data\":{}}");
    let c = WebpushConfig { notification: Some(Json::Null), ..WebpushConfig::default() };
    assert_eq!(written(&c.finalize().to_json()), "{\"notification\":null}");
    let c = WebpushConfig {
        fcm_options: Some(WebpushFcmOptions { link: text("l"), analytics_label: None }),
        ..WebpushConfig::default()
    };
    assert_eq!(written(&c.finalize().to_json()), "{\"fcm_options\":{\"link\":\"l\"}}");
}

#[test]
fn single_fields_of_apns_config() {
    let payload = Json::Object(vec![(
        "aps".to_string(),
        Json::Object(vec![("badge".to_string(), Json::Number("1".to_string()))]),
    )]);
    let c = ApnsConfig { payload: Some(payload), ..ApnsConfig::default() };
    assert_eq!(written(&c.finalize().to_json()), "{\"payload\":{\"aps\":{\"badge\":1}}}");
    let headers = Json::Object(vec![("apns-priority".to_string(), Json::String("10".to_string()))]);
    let c = ApnsConfig { headers: Some(headers), ..ApnsConfig::default() };
    assert_eq!(written(&c.finalize().to_json()), "{\"headers\":{\"apns-priority\":\"10\"}}");
}

#[test]
fn colour_components_are_written_as_numbers() {
    let c = Color { red: text("0.25"), ..Color::default() };
    assert_eq!(written(&c.finalize().to_json()), "{\"red\":0.25}");
    let l = LightSettings { color: Some(Color::default()), ..LightSettings::default() };
    assert_eq!(written(&l.finalize().to_json()), "{\"color\":{}}");
}

#[test]
fn text_is_written_verbatim() {
    let n = Notification { title: text("  a \"quoted\" ünïcode \u{1F600} text\t"), ..Notification::default() };
    let doc = n.finalize().to_json();
    match &doc {
        Json::Object(members) => {
            assert_eq!(members.len(), 1);
            assert_eq!(members[0].0, "title");
            assert!(matches!(&members[0].1, Json::String(s) if s == "  a \"quoted\" ünïcode \u{1F600} text\t"));
        }
        _ => panic!("not an object"),
    }
    let back = Json::parse(&written(&doc)).unwrap();
    assert_eq!(back.get("title").and_then(|v| v.as_str()), Some("  a \"quoted\" ünïcode \u{1F600} text\t"));
}
