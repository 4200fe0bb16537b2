//! The visibility of a notification on Android.

use vstd::prelude::*;
use crate::wire::WireToken;

verus! {

/// How much of a notification the lock screen of an Android device shows.
#[derive(Clone, Copy, Debug, PartialEq, Eq)]
pub enum Visibility {
    VisibilityUnspecified,
    Private,
    Public,
    Secret,
}

impl WireToken for Visibility {
    open spec fn token_text(&self) -> Seq<char> {
        match self {
            Visibility::VisibilityUnspecified => "VISIBILITY_UNSPECIFIED"@,
            Visibility::Private => "PRIVATE"@,
            Visibility::Public => "PUBLIC"@,
            Visibility::Secret => "SECRET"@,
        }
    }

    fn token(&self) -> (t: &'static str) {
        match self {
            Visibility::VisibilityUnspecified => "VISIBILITY_UNSPECIFIED",
            Visibility::Private => "PRIVATE",
            Visibility::Public => "PUBLIC",
            Visibility::Secret => "SECRET",
        }
    }
}

impl Visibility {
    /// Two values with the same token are the same value.
    pub proof fn law_tokens_differ(a: Visibility, b: Visibility)
        requires
            a.token_text() == b.token_text(),
        ensures
            a == b,
    {
        reveal_strlit("VISIBILITY_UNSPECIFIED");
        reveal_strlit("PRIVATE");
        reveal_strlit("PUBLIC");
        reveal_strlit("SECRET");
        assert("VISIBILITY_UNSPECIFIED"@.len() != "PRIVATE"@.len());
        assert("VISIBILITY_UNSPECIFIED"@.len() != "PUBLIC"@.len());
        assert("VISIBILITY_UNSPECIFIED"@.len() != "SECRET"@.len());
        assert("PRIVATE"@.len() != "PUBLIC"@.len());
        assert("PRIVATE"@.len() != "SECRET"@.len());
        assert("PUBLIC"@[0] != "SECRET"@[0]);
    }
}

} // verus!
