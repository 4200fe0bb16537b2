//! A colour in the RGBA colour space.

use vstd::prelude::*;
use crate::json::{Json, JsonValue};
use crate::views::opt_view;
use crate::wire::{
    Block, borrow_text, Field, lemma_present_absent, number_field, object_of, ObjectWriter,
    WireBlock,
};

verus! {

/// A colour. Each component is a JSON number literal between 0 and 1, such as
/// `0.5`.
#[derive(Debug)]
pub struct Color {
    /// The amount of red.
    pub red: Option<String>,
    /// The amount of green.
    pub green: Option<String>,
    /// The amount of blue.
    pub blue: Option<String>,
    /// The opacity.
    pub alpha: Option<String>,
}

/// The wire form of [`Color`]: the same fields, borrowed from it.
#[derive(Debug)]
pub struct ColorInternal<'m> {
    pub red: Option<&'m str>,
    pub green: Option<&'m str>,
    pub blue: Option<&'m str>,
    pub alpha: Option<&'m str>,
}

impl Block for Color {
    open spec fn fields(&self) -> Seq<Field> {
        Seq::empty()
            .push(number_field("red"@, opt_view(self.red)))
            .push(number_field("green"@, opt_view(self.green)))
            .push(number_field("blue"@, opt_view(self.blue)))
            .push(number_field("alpha"@, opt_view(self.alpha)))
    }
}

impl<'m> Block for ColorInternal<'m> {
    open spec fn fields(&self) -> Seq<Field> {
        Seq::empty()
            .push(number_field("red"@, opt_view(self.red)))
            .push(number_field("green"@, opt_view(self.green)))
            .push(number_field("blue"@, opt_view(self.blue)))
            .push(number_field("alpha"@, opt_view(self.alpha)))
    }
}

impl Default for Color {
    /// The block with every field absent.
    fn default() -> (r: Color)
        ensures
            r.is_blank(),
    {
        Color {
            red: None,
            green: None,
            blue: None,
            alpha: None,
        }
    }
}

impl Color {
    /// Whether every field is absent.
    pub open spec fn is_blank(&self) -> bool {
        &&& self.red is None
        &&& self.green is None
        &&& self.blue is None
        &&& self.alpha is None
    }

    /// The wire form: every field that is present is borrowed as it is, every
    /// field that is absent stays absent.
    pub fn finalize(&self) -> (wire: ColorInternal<'_>)
        ensures
            wire.fields() == self.fields(),
    {
        ColorInternal {
            red: borrow_text(&self.red),
            green: borrow_text(&self.green),
            blue: borrow_text(&self.blue),
            alpha: borrow_text(&self.alpha),
        }
    }

    /// A block with every field absent is written as the empty object.
    pub proof fn law_blank_is_empty_object(self)
        requires
            self.is_blank(),
        ensures
            object_of(self.fields()) == JsonValue::Object(Seq::empty()),
    {
        lemma_present_absent(self.fields());
    }
}

impl<'m> WireBlock for ColorInternal<'m> {
    fn to_json(&self) -> (doc: Json) {
        ObjectWriter::new()
            .number("red", self.red)
            .number("green", self.green)
            .number("blue", self.blue)
            .number("alpha", self.alpha)
            .finish()
    }
}

} // verus!
