//! Options of the messaging service on Apple devices.

use vstd::prelude::*;
use crate::json::{Json, JsonValue};
use crate::views::opt_view;
use crate::wire::{
    Block, borrow_text, Field, lemma_present_absent, object_of, ObjectWriter, text_field, WireBlock,
};

verus! {

/// Options for the features of the messaging service on Apple devices.
#[derive(Debug)]
pub struct ApnsFcmOptions {
    /// The label under which the message is counted in the analytics data.
    pub analytics_label: Option<String>,
    /// The address of an image to show in the notification.
    pub image: Option<String>,
}

/// The wire form of [`ApnsFcmOptions`]: the same fields, borrowed from it.
#[derive(Debug)]
pub struct ApnsFcmOptionsInternal<'m> {
    pub analytics_label: Option<&'m str>,
    pub image: Option<&'m str>,
}

impl Block for ApnsFcmOptions {
    open spec fn fields(&self) -> Seq<Field> {
        Seq::empty()
            .push(text_field("analytics_label"@, opt_view(self.analytics_label)))
            .push(text_field("image"@, opt_view(self.image)))
    }
}

impl<'m> Block for ApnsFcmOptionsInternal<'m> {
    open spec fn fields(&self) -> Seq<Field> {
        Seq::empty()
            .push(text_field("analytics_label"@, opt_view(self.analytics_label)))
            .push(text_field("image"@, opt_view(self.image)))
    }
}

impl Default for ApnsFcmOptions {
    /// The block with every field absent.
    fn default() -> (r: ApnsFcmOptions)
        ensures
            r.is_blank(),
    {
        ApnsFcmOptions {
            analytics_label: None,
            image: None,
        }
    }
}

impl ApnsFcmOptions {
    /// Whether every field is absent.
    pub open spec fn is_blank(&self) -> bool {
        &&& self.analytics_label is None
        &&& self.image is None
    }

    /// The wire form: every field that is present is borrowed as it is, every
    /// field that is absent stays absent.
    pub fn finalize(&self) -> (wire: ApnsFcmOptionsInternal<'_>)
        ensures
            wire.fields() == self.fields(),
    {
        ApnsFcmOptionsInternal {
            analytics_label: borrow_text(&self.analytics_label),
            image: borrow_text(&self.image),
        }
    }

    /// A block with every field absent is written as the empty object.
    pub proof fn law_blank_is_empty_object(self)
        requires
            self.is_blank(),
        ensures
            object_of(self.fields()) == JsonValue::Object(Seq::empty()),
    {
        lemma_present_absent(self.fields());
    }
}

impl<'m> WireBlock for ApnsFcmOptionsInternal<'m> {
    fn to_json(&self) -> (doc: Json) {
        ObjectWriter::new()
            .text("analytics_label", self.analytics_label)
            .text("image", self.image)
            .finish()
    }
}

} // verus!
