//! What a message carries for Android devices.

pub mod android_config;
pub mod android_fcm_options;
pub mod android_message_priority;
pub mod android_notification;
pub mod color;
pub mod light_settings;
pub mod notification_priority;
pub mod visibility;
