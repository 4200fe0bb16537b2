//! Where a message is sent to.

use vstd::prelude::*;
use crate::json::JsonValue;
use crate::wire::Member;

verus! {

/// The addressing mode of a message: exactly one of a device's registration
/// token, a topic, and a condition over topics. The text is handed on as it is.
#[derive(Debug)]
pub enum Target {
    /// The registration token of one device.
    Token(String),
    /// The name of a topic.
    Topic(String),
    /// A condition over topics, such as `'foo' in topics && 'bar' in topics`.
    Condition(String),
}

impl Target {
    /// The key under which the target stands in a message: the variant's name.
    pub open spec fn key(&self) -> Seq<char> {
        match self {
            Target::Token(_) => "token"@,
            Target::Topic(_) => "topic"@,
            Target::Condition(_) => "condition"@,
        }
    }

    /// The text that the target holds.
    pub open spec fn text(&self) -> Seq<char> {
        match self {
            Target::Token(t) => t@,
            Target::Topic(t) => t@,
            Target::Condition(t) => t@,
        }
    }

    /// The one member that the target adds to a message.
    pub open spec fn member(&self) -> Member {
        (self.key(), JsonValue::String(self.text()))
    }

    /// The key and the text of the target.
    pub fn entry(&self) -> (r: (&'static str, &str))
        ensures
            r.0@ == self.key(),
            r.1@ == self.text(),
    {
        match self {
            Target::Token(t) => ("token", t.as_str()),
            Target::Topic(t) => ("topic", t.as_str()),
            Target::Condition(t) => ("condition", t.as_str()),
        }
    }

    /// A target stands under exactly one of the three keys, the one that its
    /// variant names.
    pub proof fn law_one_key(self)
        ensures
            (self.key() == "token"@) == (self is Token),
            (self.key() == "topic"@) == (self is Topic),
            (self.key() == "condition"@) == (self is Condition),
            Self::is_addressing_key(self.key()),
    {
        reveal_strlit("token");
        reveal_strlit("topic");
        reveal_strlit("condition");
        assert("token"@[2] != "topic"@[2]);
        assert("token"@.len() != "condition"@.len());
        assert("topic"@.len() != "condition"@.len());
    }

    /// Whether `key` is one of the three keys that address a message.
    pub open spec fn is_addressing_key(key: Seq<char>) -> bool {
        key == "token"@ || key == "topic"@ || key == "condition"@
    }
}

} // verus!
