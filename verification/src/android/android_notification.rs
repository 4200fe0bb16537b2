//! The notification to show on Android devices.

use vstd::prelude::*;
use crate::android::light_settings::{LightSettings, LightSettingsInternal};
use crate::android::notification_priority::NotificationPriority;
use crate::android::visibility::Visibility;
use crate::json::{Json, JsonValue};
use crate::views::opt_view;
use crate::wire::{
    Block, block_field, borrow_list, borrow_text, Field, flag_field, int_field,
    lemma_present_absent, list_field, object_of, ObjectWriter, opt_fields, opt_token, text_field,
    WireBlock,
};

verus! {

/// The notification that an Android device shows for a message.
#[derive(Debug)]
pub struct AndroidNotification {
    /// The title of the notification.
    pub title: Option<String>,
    /// The body text of the notification.
    pub body: Option<String>,
    /// The icon of the notification.
    pub icon: Option<String>,
    /// The colour of the icon, as `#rrggbb`.
    pub color: Option<String>,
    /// The sound to play when the device receives the notification.
    pub sound: Option<String>,
    /// An identifier: a notification replaces the one in the drawer that has
    /// the same tag.
    pub tag: Option<String>,
    /// The action that a click on the notification starts.
    pub click_action: Option<String>,
    /// The key of the body text among the app's string resources, to show the
    /// body in the user's language.
    pub body_loc_key: Option<String>,
    /// The values that replace the format specifiers of the localised body
    /// text.
    pub body_loc_args: Option<Vec<String>>,
    /// The key of the title among the app's string resources, to show the
    /// title in the user's language.
    pub title_loc_key: Option<String>,
    /// The values that replace the format specifiers of the localised title.
    pub title_loc_args: Option<Vec<String>>,
    /// The channel of the notification.
    pub channel_id: Option<String>,
    /// The text that is handed to accessibility services.
    pub ticker: Option<String>,
    /// Whether the notification stays when the user clicks it.
    pub sticky: Option<bool>,
    /// When the event of the notification occurred, as a timestamp.
    pub event_time: Option<String>,
    /// Whether the notification concerns the current device only.
    pub local_only: Option<bool>,
    /// The relative priority of the notification.
    pub notification_priority: Option<NotificationPriority>,
    /// Whether to play the default sound of the Android framework.
    pub default_sound: Option<bool>,
    /// Whether to use the default vibration pattern of the Android framework.
    pub default_vibrate_timings: Option<bool>,
    /// Whether to use the default light settings of the Android framework.
    pub default_light_settings: Option<bool>,
    /// The vibration pattern, as a list of durations.
    pub vibrate_timings: Option<Vec<String>>,
    /// How much of the notification a locked screen shows.
    pub visibility: Option<Visibility>,
    /// The number of items that the notification stands for.
    pub notification_count: Option<i32>,
    /// The blinking rate and colour of the device's light.
    pub light_settings: Option<LightSettings>,
    /// The address of an image to show in the notification.
    pub image: Option<String>,
}

/// The wire form of [`AndroidNotification`]: the same fields, borrowed from it.
#[derive(Debug)]
pub struct AndroidNotificationInternal<'m> {
    pub title: Option<&'m str>,
    pub body: Option<&'m str>,
    pub icon: Option<&'m str>,
    pub color: Option<&'m str>,
    pub sound: Option<&'m str>,
    pub tag: Option<&'m str>,
    pub click_action: Option<&'m str>,
    pub body_loc_key: Option<&'m str>,
    pub body_loc_args: Option<&'m [String]>,
    pub title_loc_key: Option<&'m str>,
    pub title_loc_args: Option<&'m [String]>,
    pub channel_id: Option<&'m str>,
    pub ticker: Option<&'m str>,
    pub sticky: Option<bool>,
    pub event_time: Option<&'m str>,
    pub local_only: Option<bool>,
    pub notification_priority: Option<NotificationPriority>,
    pub default_sound: Option<bool>,
    pub default_vibrate_timings: Option<bool>,
    pub default_light_settings: Option<bool>,
    pub vibrate_timings: Option<&'m [String]>,
    pub visibility: Option<Visibility>,
    pub notification_count: Option<i32>,
    pub light_settings: Option<LightSettingsInternal<'m>>,
    pub image: Option<&'m str>,
}

impl Block for AndroidNotification {
    open spec fn fields(&self) -> Seq<Field> {
        Seq::empty()
            .push(text_field("title"@, opt_view(self.title)))
            .push(text_field("body"@, opt_view(self.body)))
            .push(text_field("icon"@, opt_view(self.icon)))
            .push(text_field("color"@, opt_view(self.color)))
            .push(text_field("sound"@, opt_view(self.sound)))
            .push(text_field("tag"@, opt_view(self.tag)))
            .push(text_field("click_action"@, opt_view(self.click_action)))
            .push(text_field("body_loc_key"@, opt_view(self.body_loc_key)))
            .push(list_field("body_loc_args"@, opt_view(self.body_loc_args)))
            .push(text_field("title_loc_key"@, opt_view(self.title_loc_key)))
            .push(list_field("title_loc_args"@, opt_view(self.title_loc_args)))
            .push(text_field("channel_id"@, opt_view(self.channel_id)))
            .push(text_field("ticker"@, opt_view(self.ticker)))
            .push(flag_field("sticky"@, self.sticky))
            .push(text_field("event_time"@, opt_view(self.event_time)))
            .push(flag_field("local_only"@, self.local_only))
            .push(text_field("notification_priority"@, opt_token(self.notification_priority)))
            .push(flag_field("default_sound"@, self.default_sound))
            .push(flag_field("default_vibrate_timings"@, self.default_vibrate_timings))
            .push(flag_field("default_light_settings"@, self.default_light_settings))
            .push(list_field("vibrate_timings"@, opt_view(self.vibrate_timings)))
            .push(text_field("visibility"@, opt_token(self.visibility)))
            .push(int_field("notification_count"@, self.notification_count))
            .push(block_field("light_settings"@, opt_fields(self.light_settings)))
            .push(text_field("image"@, opt_view(self.image)))
    }
}

impl<'m> Block for AndroidNotificationInternal<'m> {
    open spec fn fields(&self) -> Seq<Field> {
        Seq::empty()
            .push(text_field("title"@, opt_view(self.title)))
            .push(text_field("body"@, opt_view(self.body)))
            .push(text_field("icon"@, opt_view(self.icon)))
            .push(text_field("color"@, opt_view(self.color)))
            .push(text_field("sound"@, opt_view(self.sound)))
            .push(text_field("tag"@, opt_view(self.tag)))
            .push(text_field("click_action"@, opt_view(self.click_action)))
            .push(text_field("body_loc_key"@, opt_view(self.body_loc_key)))
            .push(list_field("body_loc_args"@, opt_view(self.body_loc_args)))
            .push(text_field("title_loc_key"@, opt_view(self.title_loc_key)))
            .push(list_field("title_loc_args"@, opt_view(self.title_loc_args)))
            .push(text_field("channel_id"@, opt_view(self.channel_id)))
            .push(text_field("ticker"@, opt_view(self.ticker)))
            .push(flag_field("sticky"@, self.sticky))
            .push(text_field("event_time"@, opt_view(self.event_time)))
            .push(flag_field("local_only"@, self.local_only))
            .push(text_field("notification_priority"@, opt_token(self.notification_priority)))
            .push(flag_field("default_sound"@, self.default_sound))
            .push(flag_field("default_vibrate_timings"@, self.default_vibrate_timings))
            .push(flag_field("default_light_settings"@, self.default_light_settings))
            .push(list_field("vibrate_timings"@, opt_view(self.vibrate_timings)))
            .push(text_field("visibility"@, opt_token(self.visibility)))
            .push(int_field("notification_count"@, self.notification_count))
            .push(block_field("light_settings"@, opt_fields(self.light_settings)))
            .push(text_field("image"@, opt_view(self.image)))
    }
}

impl Default for AndroidNotification {
    /// The block with every field absent.
    fn default() -> (r: AndroidNotification)
        ensures
            r.is_blank(),
    {
        AndroidNotification {
            title: None,
            body: None,
            icon: None,
            color: None,
            sound: None,
            tag: None,
            click_action: None,
            body_loc_key: None,
            body_loc_args: None,
            title_loc_key: None,
            title_loc_args: None,
            channel_id: None,
            ticker: None,
            sticky: None,
            event_time: None,
            local_only: None,
            notification_priority: None,
            default_sound: None,
            default_vibrate_timings: None,
            default_light_settings: None,
            vibrate_timings: None,
            visibility: None,
            notification_count: None,
            light_settings: None,
            image: None,
        }
    }
}

impl AndroidNotification {
    /// Whether every field is absent.
    pub open spec fn is_blank(&self) -> bool {
        &&& self.title is None
        &&& self.body is None
        &&& self.icon is None
        &&& self.color is None
        &&& self.sound is None
        &&& self.tag is None
        &&& self.click_action is None
        &&& self.body_loc_key is None
        &&& self.body_loc_args is None
        &&& self.title_loc_key is None
        &&& self.title_loc_args is None
        &&& self.channel_id is None
        &&& self.ticker is None
        &&& self.sticky is None
        &&& self.event_time is None
        &&& self.local_only is None
        &&& self.notification_priority is None
        &&& self.default_sound is None
        &&& self.default_vibrate_timings is None
        &&& self.default_light_settings is None
        &&& self.vibrate_timings is None
        &&& self.visibility is None
        &&& self.notification_count is None
        &&& self.light_settings is None
        &&& self.image is None
    }

    /// The wire form: every field that is present is borrowed as it is, every
    /// field that is absent stays absent.
    pub fn finalize(&self) -> (wire: AndroidNotificationInternal<'_>)
        ensures
            wire.fields() == self.fields(),
    {
        AndroidNotificationInternal {
            title: borrow_text(&self.title),
            body: borrow_text(&self.body),
            icon: borrow_text(&self.icon),
            color: borrow_text(&self.color),
            sound: borrow_text(&self.sound),
            tag: borrow_text(&self.tag),
            click_action: borrow_text(&self.click_action),
            body_loc_key: borrow_text(&self.body_loc_key),
            body_loc_args: borrow_list(&self.body_loc_args),
            title_loc_key: borrow_text(&self.title_loc_key),
            title_loc_args: borrow_list(&self.title_loc_args),
            channel_id: borrow_text(&self.channel_id),
            ticker: borrow_text(&self.ticker),
            sticky: self.sticky,
            event_time: borrow_text(&self.event_time),
            local_only: self.local_only,
            notification_priority: self.notification_priority,
            default_sound: self.default_sound,
            default_vibrate_timings: self.default_vibrate_timings,
            default_light_settings: self.default_light_settings,
            vibrate_timings: borrow_list(&self.vibrate_timings),
            visibility: self.visibility,
            notification_count: self.notification_count,
            light_settings: match &self.light_settings {
                Some(b) => Some(b.finalize()),
                None => None,
            },
            image: borrow_text(&self.image),
        }
    }

    /// A block with every field absent is written as the empty object.
    pub proof fn law_blank_is_empty_object(self)
        requires
            self.is_blank(),
        ensures
            object_of(self.fields()) == JsonValue::Object(Seq::empty()),
    {
        lemma_present_absent(self.fields());
    }
}

impl<'m> WireBlock for AndroidNotificationInternal<'m> {
    fn to_json(&self) -> (doc: Json) {
        ObjectWriter::new()
            .text("title", self.title)
            .text("body", self.body)
            .text("icon", self.icon)
            .text("color", self.color)
            .text("sound", self.sound)
            .text("tag", self.tag)
            .text("click_action", self.click_action)
            .text("body_loc_key", self.body_loc_key)
            .list("body_loc_args", self.body_loc_args)
            .text("title_loc_key", self.title_loc_key)
            .list("title_loc_args", self.title_loc_args)
            .text("channel_id", self.channel_id)
            .text("ticker", self.ticker)
            .flag("sticky", self.sticky)
            .text("event_time", self.event_time)
            .flag("local_only", self.local_only)
            .token("notification_priority", &self.notification_priority)
            .flag("default_sound", self.default_sound)
            .flag("default_vibrate_timings", self.default_vibrate_timings)
            .flag("default_light_settings", self.default_light_settings)
            .list("vibrate_timings", self.vibrate_timings)
            .token("visibility", &self.visibility)
            .integer("notification_count", self.notification_count)
            .block("light_settings", &self.light_settings)
            .text("image", self.image)
            .finish()
    }
}

} // verus!
