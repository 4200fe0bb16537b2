//! What a message carries for Apple devices only.

use vstd::prelude::*;
use crate::apns::apns_fcm_options::{ApnsFcmOptions, ApnsFcmOptionsInternal};
use crate::json::{Json, JsonValue};
use crate::views::opt_view;
use crate::wire::{
    Block, block_field, borrow_json, Field, json_field, lemma_present_absent, object_of,
    ObjectWriter, opt_fields, WireBlock,
};

verus! {

/// The part of a message that applies to Apple devices only.
#[derive(Debug)]
pub struct ApnsConfig {
    /// The request headers that the Apple push service defines.
    pub headers: Option<Json>,
    /// The payload for the Apple push service, as a JSON object.
    pub payload: Option<Json>,
    /// Options for the features of the messaging service.
    pub fcm_options: Option<ApnsFcmOptions>,
}

/// The wire form of [`ApnsConfig`]: the same fields, borrowed from it.
#[derive(Debug)]
pub struct ApnsConfigInternal<'m> {
    pub headers: Option<&'m Json>,
    pub payload: Option<&'m Json>,
    pub fcm_options: Option<ApnsFcmOptionsInternal<'m>>,
}

impl Block for ApnsConfig {
    open spec fn fields(&self) -> Seq<Field> {
        Seq::empty()
            .push(json_field("headers"@, opt_view(self.headers)))
            .push(json_field("payload"@, opt_view(self.payload)))
            .push(block_field("fcm_options"@, opt_fields(self.fcm_options)))
    }
}

impl<'m> Block for ApnsConfigInternal<'m> {
    open spec fn fields(&self) -> Seq<Field> {
        Seq::empty()
            .push(json_field("headers"@, opt_view(self.headers)))
            .push(json_field("payload"@, opt_view(self.payload)))
            .push(block_field("fcm_options"@, opt_fields(self.fcm_options)))
    }
}

impl Default for ApnsConfig {
    /// The block with every field absent.
    fn default() -> (r: ApnsConfig)
        ensures
            r.is_blank(),
    {
        ApnsConfig {
            headers: None,
            payload: None,
            fcm_options: None,
        }
    }
}

impl ApnsConfig {
    /// Whether every field is absent.
    pub open spec fn is_blank(&self) -> bool {
        &&& self.headers is None
        &&& self.payload is None
        &&& self.fcm_options is None
    }

    /// The wire form: every field that is present is borrowed as it is, every
    /// field that is absent stays absent.
    pub fn finalize(&self) -> (wire: ApnsConfigInternal<'_>)
        ensures
            wire.fields() == self.fields(),
    {
        ApnsConfigInternal {
            headers: borrow_json(&self.headers),
            payload: borrow_json(&self.payload),
            fcm_options: match &self.fcm_options {
                Some(b) => Some(b.finalize()),
                None => None,
            },
        }
    }

    /// A block with every field absent is written as the empty object.
    pub proof fn law_blank_is_empty_object(self)
        requires
            self.is_blank(),
        ensures
            object_of(self.fields()) == JsonValue::Object(Seq::empty()),
    {
        lemma_present_absent(self.fields());
    }
}

impl<'m> WireBlock for ApnsConfigInternal<'m> {
    fn to_json(&self) -> (doc: Json) {
        ObjectWriter::new()
            .json("headers", self.headers)
            .json("payload", self.payload)
            .block("fcm_options", &self.fcm_options)
            .finish()
    }
}

} // verus!
