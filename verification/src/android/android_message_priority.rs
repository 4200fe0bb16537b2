//! The delivery priority of a message on Android.

use vstd::prelude::*;
use crate::wire::WireToken;

verus! {

/// The priority with which a message is delivered to an Android device.
#[derive(Clone, Copy, Debug, PartialEq, Eq)]
pub enum AndroidMessagePriority {
    Normal,
    High,
}

impl WireToken for AndroidMessagePriority {
    open spec fn token_text(&self) -> Seq<char> {
        match self {
            AndroidMessagePriority::Normal => "NORMAL"@,
            AndroidMessagePriority::High => "HIGH"@,
        }
    }

    fn token(&self) -> (t: &'static str) {
        match self {
            AndroidMessagePriority::Normal => "NORMAL",
            AndroidMessagePriority::High => "HIGH",
        }
    }
}

impl AndroidMessagePriority {
    /// Two values with the same token are the same value.
    pub proof fn law_tokens_differ(a: AndroidMessagePriority, b: AndroidMessagePriority)
        requires
            a.token_text() == b.token_text(),
        ensures
            a == b,
    {
        reveal_strlit("NORMAL");
        reveal_strlit("HIGH");
        assert("NORMAL"@.len() != "HIGH"@.len());
    }
}

} // verus!
