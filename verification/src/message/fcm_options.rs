//! Options of the messaging service on every platform.

use vstd::prelude::*;
use crate::json::{Json, JsonValue};
use crate::views::opt_view;
use crate::wire::{
    Block, borrow_text, Field, lemma_present_absent, object_of, ObjectWriter, text_field, WireBlock,
};

verus! {

/// Options for the features of the messaging service, on every platform.
#[derive(Debug)]
pub struct FcmOptions {
    /// The label under which the message is counted in the analytics data.
    pub analytics_label: Option<String>,
}

/// The wire form of [`FcmOptions`]: the same fields, borrowed from it.
#[derive(Debug)]
pub struct FcmOptionsInternal<'m> {
    pub analytics_label: Option<&'m str>,
}

impl Block for FcmOptions {
    open spec fn fields(&self) -> Seq<Field> {
        Seq::empty()
            .push(text_field("analytics_label"@, opt_view(self.analytics_label)))
    }
}

impl<'m> Block for FcmOptionsInternal<'m> {
    open spec fn fields(&self) -> Seq<Field> {
        Seq::empty()
            .push(text_field("analytics_label"@, opt_view(self.analytics_label)))
    }
}

impl Default for FcmOptions {
    /// The block with every field absent.
    fn default() -> (r: FcmOptions)
        ensures
            r.is_blank(),
    {
        FcmOptions {
            analytics_label: None,
        }
    }
}

impl FcmOptions {
    /// Whether every field is absent.
    pub open spec fn is_blank(&self) -> bool {
        &&& self.analytics_label is None
    }

    /// The wire form: every field that is present is borrowed as it is, every
    /// field that is absent stays absent.
    pub fn finalize(&self) -> (wire: FcmOptionsInternal<'_>)
        ensures
            wire.fields() == self.fields(),
    {
        FcmOptionsInternal {
            analytics_label: borrow_text(&self.analytics_label),
        }
    }

    /// A block with every field absent is written as the empty object.
    pub proof fn law_blank_is_empty_object(self)
        requires
            self.is_blank(),
        ensures
            object_of(self.fields()) == JsonValue::Object(Seq::empty()),
    {
        lemma_present_absent(self.fields());
    }
}

impl<'m> WireBlock for FcmOptionsInternal<'m> {
    fn to_json(&self) -> (doc: Json) {
        ObjectWriter::new()
            .text("analytics_label", self.analytics_label)
            .finish()
    }
}

} // verus!
