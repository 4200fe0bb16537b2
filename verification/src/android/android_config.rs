//! What a message carries for Android devices only.

use vstd::prelude::*;
use crate::android::android_fcm_options::{AndroidFcmOptions, AndroidFcmOptionsInternal};
use crate::android::android_message_priority::AndroidMessagePriority;
use crate::android::android_notification::{AndroidNotification, AndroidNotificationInternal};
use crate::json::{Json, JsonValue};
use crate::views::opt_view;
use crate::wire::{
    Block, block_field, borrow_json, borrow_text, Field, flag_field, json_field,
    lemma_present_absent, object_of, ObjectWriter, opt_fields, opt_token, text_field, WireBlock,
};

verus! {

/// The part of a message that applies to Android devices only.
#[derive(Debug)]
pub struct AndroidConfig {
    /// An identifier of a group of messages of which only the last is
    /// delivered.
    pub collapse_key: Option<String>,
    /// The delivery priority of the message.
    pub priority: Option<AndroidMessagePriority>,
    /// How long the message is kept while the device is offline, as a
    /// duration.
    pub ttl: Option<String>,
    /// The package name that the receiving application must have.
    pub restricted_package_name: Option<String>,
    /// Key and value payload, which replaces that of the message.
    pub data: Option<Json>,
    /// The notification to show on Android devices.
    pub notification: Option<AndroidNotification>,
    /// Options for the features of the messaging service.
    pub fcm_options: Option<AndroidFcmOptions>,
    /// Whether the message may be delivered while the device is in direct
    /// boot mode.
    pub direct_boot_ok: Option<bool>,
}

/// The wire form of [`AndroidConfig`]: the same fields, borrowed from it.
#[derive(Debug)]
pub struct AndroidConfigInternal<'m> {
    pub collapse_key: Option<&'m str>,
    pub priority: Option<AndroidMessagePriority>,
    pub ttl: Option<&'m str>,
    pub restricted_package_name: Option<&'m str>,
    pub data: Option<&'m Json>,
    pub notification: Option<AndroidNotificationInternal<'m>>,
    pub fcm_options: Option<AndroidFcmOptionsInternal<'m>>,
    pub direct_boot_ok: Option<bool>,
}

impl Block for AndroidConfig {
    open spec fn fields(&self) -> Seq<Field> {
        Seq::empty()
            .push(text_field("collapse_key"@, opt_view(self.collapse_key)))
            .push(text_field("priority"@, opt_token(self.priority)))
            .push(text_field("ttl"@, opt_view(self.ttl)))
            .push(text_field("restricted_package_name"@, opt_view(self.restricted_package_name)))
            .push(json_field("data"@, opt_view(self.data)))
            .push(block_field("notification"@, opt_fields(self.notification)))
            .push(block_field("fcm_options"@, opt_fields(self.fcm_options)))
            .push(flag_field("direct_boot_ok"@, self.direct_boot_ok))
    }
}

impl<'m> Block for AndroidConfigInternal<'m> {
    open spec fn fields(&self) -> Seq<Field> {
        Seq::empty()
            .push(text_field("collapse_key"@, opt_view(self.collapse_key)))
            .push(text_field("priority"@, opt_token(self.priority)))
            .push(text_field("ttl"@, opt_view(self.ttl)))
            .push(text_field("restricted_package_name"@, opt_view(self.restricted_package_name)))
            .push(json_field("data"@, opt_view(self.data)))
            .push(block_field("notification"@, opt_fields(self.notification)))
            .push(block_field("fcm_options"@, opt_fields(self.fcm_options)))
            .push(flag_field("direct_boot_ok"@, self.direct_boot_ok))
    }
}

impl Default for AndroidConfig {
    /// The block with every field absent.
    fn default() -> (r: AndroidConfig)
        ensures
            r.is_blank(),
    {
        AndroidConfig {
            collapse_key: None,
            priority: None,
            ttl: None,
            restricted_package_name: None,
            data: None,
            notification: None,
            fcm_options: None,
            direct_boot_ok: None,
        }
    }
}

impl AndroidConfig {
    /// Whether every field is absent.
    pub open spec fn is_blank(&self) -> bool {
        &&& self.collapse_key is None
        &&& self.priority is None
        &&& self.ttl is None
        &&& self.restricted_package_name is None
        &&& self.data is None
        &&& self.notification is None
        &&& self.fcm_options is None
        &&& self.direct_boot_ok is None
    }

    /// The wire form: every field that is present is borrowed as it is, every
    /// field that is absent stays absent.
    pub fn finalize(&self) -> (wire: AndroidConfigInternal<'_>)
        ensures
            wire.fields() == self.fields(),
    {
        AndroidConfigInternal {
            collapse_key: borrow_text(&self.collapse_key),
            priority: self.priority,
            ttl: borrow_text(&self.ttl),
            restricted_package_name: borrow_text(&self.restricted_package_name),
            data: borrow_json(&self.data),
            notification: match &self.notification {
                Some(b) => Some(b.finalize()),
                None => None,
            },
            fcm_options: match &self.fcm_options {
                Some(b) => Some(b.finalize()),
                None => None,
            },
            direct_boot_ok: self.direct_boot_ok,
        }
    }

    /// A block with every field absent is written as the empty object.
    pub proof fn law_blank_is_empty_object(self)
        requires
            self.is_blank(),
        ensures
            object_of(self.fields()) == JsonValue::Object(Seq::empty()),
    {
        lemma_present_absent(self.fields());
    }
}

impl<'m> WireBlock for AndroidConfigInternal<'m> {
    fn to_json(&self) -> (doc: Json) {
        ObjectWriter::new()
            .text("collapse_key", self.collapse_key)
            .token("priority", &self.priority)
            .text("ttl", self.ttl)
            .text("restricted_package_name", self.restricted_package_name)
            .json("data", self.data)
            .block("notification", &self.notification)
            .block("fcm_options", &self.fcm_options)
            .flag("direct_boot_ok", self.direct_boot_ok)
            .finish()
    }
}

} // verus!
