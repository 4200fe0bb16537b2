//! Options of the messaging service on the web.

use vstd::prelude::*;
use crate::json::{Json, JsonValue};
use crate::views::opt_view;
use crate::wire::{
    Block, borrow_text, Field, lemma_present_absent, object_of, ObjectWriter, text_field, WireBlock,
};

verus! {

/// Options for the features of the messaging service on the web.
#[derive(Debug)]
pub struct WebpushFcmOptions {
    /// The address to open when the user clicks the notification.
    pub link: Option<String>,
    /// The label under which the message is counted in the analytics data.
    pub analytics_label: Option<String>,
}

/// The wire form of [`WebpushFcmOptions`]: the same fields, borrowed from it.
#[derive(Debug)]
pub struct WebpushFcmOptionsInternal<'m> {
    pub link: Option<&'m str>,
    pub analytics_label: Option<&'m str>,
}

impl Block for WebpushFcmOptions {
    open spec fn fields(&self) -> Seq<Field> {
        Seq::empty()
            .push(text_field("link"@, opt_view(self.link)))
            .push(text_field("analytics_label"@, opt_view(self.analytics_label)))
    }
}

impl<'m> Block for WebpushFcmOptionsInternal<'m> {
    open spec fn fields(&self) -> Seq<Field> {
        Seq::empty()
            .push(text_field("link"@, opt_view(self.link)))
            .push(text_field("analytics_label"@, opt_view(self.analytics_label)))
    }
}

impl Default for WebpushFcmOptions {
    /// The block with every field absent.
    fn default() -> (r: WebpushFcmOptions)
        ensures
            r.is_blank(),
    {
        WebpushFcmOptions {
            link: None,
            analytics_label: None,
        }
    }
}

impl WebpushFcmOptions {
    /// Whether every field is absent.
    pub open spec fn is_blank(&self) -> bool {
        &&& self.link is None
        &&& self.analytics_label is None
    }

    /// The wire form: every field that is present is borrowed as it is, every
    /// field that is absent stays absent.
    pub fn finalize(&self) -> (wire: WebpushFcmOptionsInternal<'_>)
        ensures
            wire.fields() == self.fields(),
    {
        WebpushFcmOptionsInternal {
            link: borrow_text(&self.link),
            analytics_label: borrow_text(&self.analytics_label),
        }
    }

    /// A block with every field absent is written as the empty object.
    pub proof fn law_blank_is_empty_object(self)
        requires
            self.is_blank(),
        ensures
            object_of(self.fields()) == JsonValue::Object(Seq::empty()),
    {
        lemma_present_absent(self.fields());
    }
}

impl<'m> WireBlock for WebpushFcmOptionsInternal<'m> {
    fn to_json(&self) -> (doc: Json) {
        ObjectWriter::new()
            .text("link", self.link)
            .text("analytics_label", self.analytics_label)
            .finish()
    }
}

} // verus!
