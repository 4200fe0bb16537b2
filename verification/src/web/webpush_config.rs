//! What a message carries for the webpush protocol only.

use vstd::prelude::*;
use crate::json::{Json, JsonValue};
use crate::views::opt_view;
use crate::web::webpush_fcm_options::{WebpushFcmOptions, WebpushFcmOptionsInternal};
use crate::wire::{
    Block, block_field, borrow_json, Field, json_field, lemma_present_absent, object_of,
    ObjectWriter, opt_fields, WireBlock,
};

verus! {

/// The part of a message that applies to the webpush protocol only.
#[derive(Debug)]
pub struct WebpushConfig {
    /// The headers that the webpush protocol defines.
    pub headers: Option<Json>,
    /// Key and value payload, which replaces that of the message.
    pub data: Option<Json>,
    /// The options of the web notification, as a JSON object.
    pub notification: Option<Json>,
    /// Options for the features of the messaging service.
    pub fcm_options: Option<WebpushFcmOptions>,
}

/// The wire form of [`WebpushConfig`]: the same fields, borrowed from it.
#[derive(Debug)]
pub struct WebpushConfigInternal<'m> {
    pub headers: Option<&'m Json>,
    pub data: Option<&'m Json>,
    pub notification: Option<&'m Json>,
    pub fcm_options: Option<WebpushFcmOptionsInternal<'m>>,
}

impl Block for WebpushConfig {
    open spec fn fields(&self) -> Seq<Field> {
        Seq::empty()
            .push(json_field("headers"@, opt_view(self.headers)))
            .push(json_field("data"@, opt_view(self.data)))
            .push(json_field("notification"@, opt_view(self.notification)))
            .push(block_field("fcm_options"@, opt_fields(self.fcm_options)))
    }
}

impl<'m> Block for WebpushConfigInternal<'m> {
    open spec fn fields(&self) -> Seq<Field> {
        Seq::empty()
            .push(json_field("headers"@, opt_view(self.headers)))
            .push(json_field("data"@, opt_view(self.data)))
            .push(json_field("notification"@, opt_view(self.notification)))
            .push(block_field("fcm_options"@, opt_fields(self.fcm_options)))
    }
}

impl Default for WebpushConfig {
    /// The block with every field absent.
    fn default() -> (r: WebpushConfig)
        ensures
            r.is_blank(),
    {
        WebpushConfig {
            headers: None,
            data: None,
            notification: None,
            fcm_options: None,
        }
    }
}

impl WebpushConfig {
    /// Whether every field is absent.
    pub open spec fn is_blank(&self) -> bool {
        &&& self.headers is None
        &&& self.data is None
        &&& self.notification is None
        &&& self.fcm_options is None
    }

    /// The wire form: every field that is present is borrowed as it is, every
    /// field that is absent stays absent.
    pub fn finalize(&self) -> (wire: WebpushConfigInternal<'_>)
        ensures
            wire.fields() == self.fields(),
    {
        WebpushConfigInternal {
            headers: borrow_json(&self.headers),
            data: borrow_json(&self.data),
            notification: borrow_json(&self.notification),
            fcm_options: match &self.fcm_options {
                Some(b) => Some(b.finalize()),
                None => None,
            },
        }
    }

    /// A block with every field absent is written as the empty object.
    pub proof fn law_blank_is_empty_object(self)
        requires
            self.is_blank(),
        ensures
            object_of(self.fields()) == JsonValue::Object(Seq::empty()),
    {
        lemma_present_absent(self.fields());
    }
}

impl<'m> WireBlock for WebpushConfigInternal<'m> {
    fn to_json(&self) -> (doc: Json) {
        ObjectWriter::new()
            .json("headers", self.headers)
            .json("data", self.data)
            .json("notification", self.notification)
            .block("fcm_options", &self.fcm_options)
            .finish()
    }
}

} // verus!
