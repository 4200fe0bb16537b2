//! The priority of a notification on Android.

use vstd::prelude::*;
use crate::wire::WireToken;

verus! {

/// The relative priority of a notification on an Android device.
#[derive(Clone, Copy, Debug, PartialEq, Eq)]
pub enum NotificationPriority {
    PriorityUnspecified,
    PriorityMin,
    PriorityLow,
    PriorityDefault,
    PriorityHigh,
    PriorityMax,
}

impl WireToken for NotificationPriority {
    open spec fn token_text(&self) -> Seq<char> {
        match self {
            NotificationPriority::PriorityUnspecified => "PRIORITY_UNSPECIFIED"@,
            NotificationPriority::PriorityMin => "PRIORITY_MIN"@,
            NotificationPriority::PriorityLow => "PRIORITY_LOW"@,
            NotificationPriority::PriorityDefault => "PRIORITY_DEFAULT"@,
            NotificationPriority::PriorityHigh => "PRIORITY_HIGH"@,
            NotificationPriority::PriorityMax => "PRIORITY_MAX"@,
        }
    }

    fn token(&self) -> (t: &'static str) {
        match self {
            NotificationPriority::PriorityUnspecified => "PRIORITY_UNSPECIFIED",
            NotificationPriority::PriorityMin => "PRIORITY_MIN",
            NotificationPriority::PriorityLow => "PRIORITY_LOW",
            NotificationPriority::PriorityDefault => "PRIORITY_DEFAULT",
            NotificationPriority::PriorityHigh => "PRIORITY_HIGH",
            NotificationPriority::PriorityMax => "PRIORITY_MAX",
        }
    }
}

impl NotificationPriority {
    /// Two values with the same token are the same value.
    pub proof fn law_tokens_differ(a: NotificationPriority, b: NotificationPriority)
        requires
            a.token_text() == b.token_text(),
        ensures
            a == b,
    {
        reveal_strlit("PRIORITY_UNSPECIFIED");
        reveal_strlit("PRIORITY_MIN");
        reveal_strlit("PRIORITY_LOW");
        reveal_strlit("PRIORITY_DEFAULT");
        reveal_strlit("PRIORITY_HIGH");
        reveal_strlit("PRIORITY_MAX");
        assert("PRIORITY_UNSPECIFIED"@.len() != "PRIORITY_MIN"@.len());
        assert("PRIORITY_UNSPECIFIED"@.len() != "PRIORITY_LOW"@.len());
        assert("PRIORITY_UNSPECIFIED"@.len() != "PRIORITY_DEFAULT"@.len());
        assert("PRIORITY_UNSPECIFIED"@.len() != "PRIORITY_HIGH"@.len());
        assert("PRIORITY_UNSPECIFIED"@.len() != "PRIORITY_MAX"@.len());
        assert("PRIORITY_MIN"@[9] != "PRIORITY_LOW"@[9]);
        assert("PRIORITY_MIN"@.len() != "PRIORITY_DEFAULT"@.len());
        assert("PRIORITY_MIN"@.len() != "PRIORITY_HIGH"@.len());
        assert("PRIORITY_MIN"@[10] != "PRIORITY_MAX"@[10]);
        assert("PRIORITY_LOW"@.len() != "PRIORITY_DEFAULT"@.len());
        assert("PRIORITY_LOW"@.len() != "PRIORITY_HIGH"@.len());
        assert("PRIORITY_LOW"@[9] != "PRIORITY_MAX"@[9]);
        assert("PRIORITY_DEFAULT"@.len() != "PRIORITY_HIGH"@.len());
        assert("PRIORITY_DEFAULT"@.len() != "PRIORITY_MAX"@.len());
        assert("PRIORITY_HIGH"@.len() != "PRIORITY_MAX"@.len());
    }
}

} // verus!
