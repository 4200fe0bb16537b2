//! The light of an Android device.

use vstd::prelude::*;
use crate::android::color::{Color, ColorInternal};
use crate::json::{Json, JsonValue};
use crate::views::opt_view;
use crate::wire::{
    Block, block_field, borrow_text, Field, lemma_present_absent, object_of, ObjectWriter,
    opt_fields, text_field, WireBlock,
};

verus! {

/// How the light of the device blinks for a notification.
#[derive(Debug)]
pub struct LightSettings {
    /// The colour of the light.
    pub color: Option<Color>,
    /// How long the light stays on in each blink, as a duration.
    pub light_on_duration: Option<String>,
    /// How long the light stays off in each blink, as a duration.
    pub light_off_duration: Option<String>,
}

/// The wire form of [`LightSettings`]: the same fields, borrowed from it.
#[derive(Debug)]
pub struct LightSettingsInternal<'m> {
    pub color: Option<ColorInternal<'m>>,
    pub light_on_duration: Option<&'m str>,
    pub light_off_duration: Option<&'m str>,
}

impl Block for LightSettings {
    open spec fn fields(&self) -> Seq<Field> {
        Seq::empty()
            .push(block_field("color"@, opt_fields(self.color)))
            .push(text_field("light_on_duration"@, opt_view(self.light_on_duration)))
            .push(text_field("light_off_duration"@, opt_view(self.light_off_duration)))
    }
}

impl<'m> Block for LightSettingsInternal<'m> {
    open spec fn fields(&self) -> Seq<Field> {
        Seq::empty()
            .push(block_field("color"@, opt_fields(self.color)))
            .push(text_field("light_on_duration"@, opt_view(self.light_on_duration)))
            .push(text_field("light_off_duration"@, opt_view(self.light_off_duration)))
    }
}

impl Default for LightSettings {
    /// The block with every field absent.
    fn default() -> (r: LightSettings)
        ensures
            r.is_blank(),
    {
        LightSettings {
            color: None,
            light_on_duration: None,
            light_off_duration: None,
        }
    }
}

impl LightSettings {
    /// Whether every field is absent.
    pub open spec fn is_blank(&self) -> bool {
        &&& self.color is None
        &&& self.light_on_duration is None
        &&& self.light_off_duration is None
    }

    /// The wire form: every field that is present is borrowed as it is, every
    /// field that is absent stays absent.
    pub fn finalize(&self) -> (wire: LightSettingsInternal<'_>)
        ensures
            wire.fields() == self.fields(),
    {
        LightSettingsInternal {
            color: match &self.color {
                Some(b) => Some(b.finalize()),
                None => None,
            },
            light_on_duration: borrow_text(&self.light_on_duration),
            light_off_duration: borrow_text(&self.light_off_duration),
        }
    }

    /// A block with every field absent is written as the empty object.
    pub proof fn law_blank_is_empty_object(self)
        requires
            self.is_blank(),
        ensures
            object_of(self.fields()) == JsonValue::Object(Seq::empty()),
    {
        lemma_present_absent(self.fields());
    }
}

impl<'m> WireBlock for LightSettingsInternal<'m> {
    fn to_json(&self) -> (doc: Json) {
        ObjectWriter::new()
            .block("color", &self.color)
            .text("light_on_duration", self.light_on_duration)
            .text("light_off_duration", self.light_off_duration)
            .finish()
    }
}

} // verus!
