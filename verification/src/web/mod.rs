//! What a message carries for the webpush protocol.

pub mod webpush_config;
pub mod webpush_fcm_options;
