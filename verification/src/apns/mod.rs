//! What a message carries for Apple devices.

pub mod apns_config;
pub mod apns_fcm_options;
