//! The notification that every platform shows.

use vstd::prelude::*;
use crate::json::{Json, JsonValue};
use crate::views::opt_view;
use crate::wire::{
    Block, borrow_text, Field, lemma_present_absent, object_of, ObjectWriter, text_field, WireBlock,
};

verus! {

/// The notification to show on every platform.
#[derive(Debug)]
pub struct Notification {
    /// The title of the notification.
    pub title: Option<String>,
    /// The body text of the notification.
    pub body: Option<String>,
    /// The address of an image to show in the notification.
    pub image: Option<String>,
}

/// The wire form of [`Notification`]: the same fields, borrowed from it.
#[derive(Debug)]
pub struct NotificationInternal<'m> {
    pub title: Option<&'m str>,
    pub body: Option<&'m str>,
    pub image: Option<&'m str>,
}

impl Block for Notification {
    open spec fn fields(&self) -> Seq<Field> {
        Seq::empty()
            .push(text_field("title"@, opt_view(self.title)))
            .push(text_field("body"@, opt_view(self.body)))
            .push(text_field("image"@, opt_view(self.image)))
    }
}

impl<'m> Block for NotificationInternal<'m> {
    open spec fn fields(&self) -> Seq<Field> {
        Seq::empty()
            .push(text_field("title"@, opt_view(self.title)))
            .push(text_field("body"@, opt_view(self.body)))
            .push(text_field("image"@, opt_view(self.image)))
    }
}

impl Default for Notification {
    /// The block with every field absent.
    fn default() -> (r: Notification)
        ensures
            r.is_blank(),
    {
        Notification {
            title: None,
            body: None,
            image: None,
        }
    }
}

impl Notification {
    /// Whether every field is absent.
    pub open spec fn is_blank(&self) -> bool {
        &&& self.title is None
        &&& self.body is None
        &&& self.image is None
    }

    /// The wire form: every field that is present is borrowed as it is, every
    /// field that is absent stays absent.
    pub fn finalize(&self) -> (wire: NotificationInternal<'_>)
        ensures
            wire.fields() == self.fields(),
    {
        NotificationInternal {
            title: borrow_text(&self.title),
            body: borrow_text(&self.body),
            image: borrow_text(&self.image),
        }
    }

    /// A block with every field absent is written as the empty object.
    pub proof fn law_blank_is_empty_object(self)
        requires
            self.is_blank(),
        ensures
            object_of(self.fields()) == JsonValue::Object(Seq::empty()),
    {
        lemma_present_absent(self.fields());
    }
}

impl<'m> WireBlock for NotificationInternal<'m> {
    fn to_json(&self) -> (doc: Json) {
        ObjectWriter::new()
            .text("title", self.title)
            .text("body", self.body)
            .text("image", self.image)
            .finish()
    }
}

} // verus!
