//! Messages for a push-notification delivery service: the typed message with its
//! blocks for each platform, the JSON document that is sent for it, and what the
//! answer of the service means.
//!
//! - [`message`], [`notification`], [`android`], [`web`] and [`apns`] hold the
//!   message and its blocks. Every field of a block is optional; `finalize`
//!   borrows a block into its wire form, and the wire form is written as a JSON
//!   object that has a member for each field that is present and none for a field
//!   that is absent ([`wire`]).
//! - [`json`] is the JSON document as a tree; [`codec`] has its text written and
//!   read by `serde_json`.
//! - [`client`] says, step by step, what sending a message takes, and classifies
//!   the answer of the service into a response or an error that tells the caller
//!   whether to try again.
//!
//! The library does no input or output. Its functions are proved to meet their
//! contracts, and none of them panics.

pub mod android;
pub mod apns;
pub mod client;
pub mod codec;
pub mod decimal;
pub mod json;
pub mod message;
pub mod notification;
pub mod text;
pub mod views;
pub mod web;
pub mod wire;

pub use crate::android::android_config::AndroidConfig;
pub use crate::android::android_fcm_options::AndroidFcmOptions;
pub use crate::android::android_message_priority::AndroidMessagePriority;
pub use crate::android::android_notification::AndroidNotification;
pub use crate::android::color::Color;
pub use crate::android::light_settings::LightSettings;
pub use crate::android::notification_priority::NotificationPriority;
pub use crate::android::visibility::Visibility;
pub use crate::apns::apns_config::ApnsConfig;
pub use crate::apns::apns_fcm_options::ApnsFcmOptions;
pub use crate::client::response::ErrorReason;
pub use crate::client::response::FcmError;
pub use crate::client::response::FcmResponse;
pub use crate::client::retry_after::HttpDate;
pub use crate::client::retry_after::RetryAfter;
pub use crate::json::Json;
pub use crate::message::fcm_options::FcmOptions;
pub use crate::message::target::Target;
pub use crate::message::Message;
pub use crate::message::MessageInternal;
pub use crate::notification::Notification;
pub use crate::web::webpush_config::WebpushConfig;
pub use crate::web::webpush_fcm_options::WebpushFcmOptions;
pub use crate::wire::WireBlock;
pub use crate::wire::WireToken;
