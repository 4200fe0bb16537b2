//! The message, and the wire form in which it is sent.

pub mod fcm_options;
pub mod target;

use vstd::prelude::*;
use crate::android::android_config::{AndroidConfig, AndroidConfigInternal};
use crate::apns::apns_config::{ApnsConfig, ApnsConfigInternal};
use crate::json::{Json, JsonValue};
use crate::message::fcm_options::{FcmOptions, FcmOptionsInternal};
use crate::message::target::Target;
use crate::notification::{Notification, NotificationInternal};
use crate::views::opt_view;
use crate::web::webpush_config::{WebpushConfig, WebpushConfigInternal};
use crate::wire::{
    Block, block_field, borrow_json, Field, has_member, json_field, law_absent_in_absent_out,
    lemma_present_members, lemma_present_push, object_of, ObjectWriter, opt_fields, present,
    text_field, WireBlock,
};

verus! {

/// A message for the delivery service: what to show or hand over, on which
/// platforms, and the one target it is sent to.
#[derive(Debug)]
pub struct Message {
    /// Key and value payload for the receiving application.
    pub data: Option<Json>,
    /// The notification to show on every platform.
    pub notification: Option<Notification>,
    /// Where the message is sent to.
    pub target: Target,
    /// What applies to Android devices only.
    pub android: Option<AndroidConfig>,
    /// What applies to the webpush protocol only.
    pub webpush: Option<WebpushConfig>,
    /// What applies to Apple devices only.
    pub apns: Option<ApnsConfig>,
    /// Options for the features of the messaging service, on every platform.
    pub fcm_options: Option<FcmOptions>,
}

/// The wire form of a [`Message`]: its blocks in wire form and its target, all
/// borrowed from it.
#[derive(Debug)]
pub struct MessageInternal<'m> {
    pub data: Option<&'m Json>,
    pub notification: Option<NotificationInternal<'m>>,
    pub android: Option<AndroidConfigInternal<'m>>,
    pub webpush: Option<WebpushConfigInternal<'m>>,
    pub apns: Option<ApnsConfigInternal<'m>>,
    pub fcm_options: Option<FcmOptionsInternal<'m>>,
    pub target: &'m Target,
}

/// The envelope in which a message travels: an object with the one member
/// `message`.
#[derive(Debug)]
pub struct MessageWrapper<'a> {
    pub message: &'a MessageInternal<'a>,
}

impl Block for Message {
    /// The optional blocks, then the target, which is always present and stands
    /// among the message's own members.
    open spec fn fields(&self) -> Seq<Field> {
        Seq::empty()
            .push(json_field("data"@, opt_view(self.data)))
            .push(block_field("notification"@, opt_fields(self.notification)))
            .push(block_field("android"@, opt_fields(self.android)))
            .push(block_field("webpush"@, opt_fields(self.webpush)))
            .push(block_field("apns"@, opt_fields(self.apns)))
            .push(block_field("fcm_options"@, opt_fields(self.fcm_options)))
            .push(Some(self.target.member()))
    }
}

impl<'m> Block for MessageInternal<'m> {
    open spec fn fields(&self) -> Seq<Field> {
        Seq::empty()
            .push(json_field("data"@, opt_view(self.data)))
            .push(block_field("notification"@, opt_fields(self.notification)))
            .push(block_field("android"@, opt_fields(self.android)))
            .push(block_field("webpush"@, opt_fields(self.webpush)))
            .push(block_field("apns"@, opt_fields(self.apns)))
            .push(block_field("fcm_options"@, opt_fields(self.fcm_options)))
            .push(Some(self.target.member()))
    }
}

impl<'a> Block for MessageWrapper<'a> {
    open spec fn fields(&self) -> Seq<Field> {
        Seq::empty().push(block_field("message"@, Some(self.message.fields())))
    }
}

impl Message {
    /// The wire form: every block that is present in its wire form, every block
    /// that is absent still absent, and the target borrowed.
    pub fn finalize(&self) -> (wire: MessageInternal<'_>)
        ensures
            wire.fields() == self.fields(),
            wire.target == &self.target,
    {
        MessageInternal {
            data: borrow_json(&self.data),
            notification: match &self.notification {
                Some(b) => Some(b.finalize()),
                None => None,
            },
            android: match &self.android {
                Some(b) => Some(b.finalize()),
                None => None,
            },
            webpush: match &self.webpush {
                Some(b) => Some(b.finalize()),
                None => None,
            },
            apns: match &self.apns {
                Some(b) => Some(b.finalize()),
                None => None,
            },
            fcm_options: match &self.fcm_options {
                Some(b) => Some(b.finalize()),
                None => None,
            },
            target: &self.target,
        }
    }
}

impl Message {
    /// The object of a message holds exactly one member that addresses it: its
    /// last, which stands under the key that the target's variant names and
    /// holds the target's text as it is.
    pub proof fn law_one_target(self)
        ensures
            present(self.fields()).len() >= 1,
            present(self.fields()).last() == self.target.member(),
            forall|i: int|
                0 <= i < present(self.fields()).len() - 1 ==> !Target::is_addressing_key(
                    (#[trigger] present(self.fields())[i]).0,
                ),
    {
        let blocks = self.fields().drop_last();
        assert(blocks.push(Some(self.target.member())) =~= self.fields());
        lemma_present_push(blocks, Some(self.target.member()));
        lemma_present_members(blocks);
        reveal_strlit("token");
        reveal_strlit("topic");
        reveal_strlit("condition");
        reveal_strlit("data");
        reveal_strlit("notification");
        reveal_strlit("android");
        reveal_strlit("webpush");
        reveal_strlit("apns");
        reveal_strlit("fcm_options");
        assert forall|i: int| 0 <= i < present(self.fields()).len() - 1 implies !Target::is_addressing_key(
            (#[trigger] present(self.fields())[i]).0,
        ) by {
            let m = present(blocks)[i];
            assert(present(blocks).contains(m));
            let k = choose|k: int| 0 <= k < blocks.len() && blocks[k] == Some(m);
            assert(blocks[k] == self.fields()[k]);
            assert(m.0.len() != 5 && m.0.len() != 9);
        }
    }

    /// A block that is absent from the message leaves no member in its object,
    /// and a block that is present stands there under its name, written as its
    /// own object.
    pub proof fn law_absent_in_absent_out(self)
        ensures
            self.data is None ==> !has_member(present(self.fields()), "data"@),
            self.notification is None ==> !has_member(present(self.fields()), "notification"@),
            self.android is None ==> !has_member(present(self.fields()), "android"@),
            self.webpush is None ==> !has_member(present(self.fields()), "webpush"@),
            self.apns is None ==> !has_member(present(self.fields()), "apns"@),
            self.fcm_options is None ==> !has_member(present(self.fields()), "fcm_options"@),
            self.data matches Some(d) ==> present(self.fields()).contains(("data"@, d@)),
            self.notification matches Some(b) ==> present(self.fields()).contains(
                ("notification"@, object_of(b.fields())),
            ),
            self.android matches Some(b) ==> present(self.fields()).contains(
                ("android"@, object_of(b.fields())),
            ),
            self.webpush matches Some(b) ==> present(self.fields()).contains(
                ("webpush"@, object_of(b.fields())),
            ),
            self.apns matches Some(b) ==> present(self.fields()).contains(
                ("apns"@, object_of(b.fields())),
            ),
            self.fcm_options matches Some(b) ==> present(self.fields()).contains(
                ("fcm_options"@, object_of(b.fields())),
            ),
    {
        reveal_strlit("token");
        reveal_strlit("topic");
        reveal_strlit("condition");
        reveal_strlit("data");
        reveal_strlit("notification");
        reveal_strlit("android");
        reveal_strlit("webpush");
        reveal_strlit("apns");
        reveal_strlit("fcm_options");
        assert("android"@[1] != "webpush"@[1]);
        assert("data"@[0] != "apns"@[0]);
        assert(self.fields().len() == 7);
        assert(self.fields()[6] == Some(self.target.member()));
        assert(self.target.key().len() == 5 || self.target.key().len() == 9);
        assert("notification"@.len() == 12 && "fcm_options"@.len() == 11);
        law_absent_in_absent_out(self, "data"@);
        law_absent_in_absent_out(self, "notification"@);
        law_absent_in_absent_out(self, "android"@);
        law_absent_in_absent_out(self, "webpush"@);
        law_absent_in_absent_out(self, "apns"@);
        law_absent_in_absent_out(self, "fcm_options"@);
        assert(self.fields()[0] == json_field("data"@, opt_view(self.data)));
        assert(self.fields()[1] == block_field("notification"@, opt_fields(self.notification)));
        assert(self.fields()[2] == block_field("android"@, opt_fields(self.android)));
        assert(self.fields()[3] == block_field("webpush"@, opt_fields(self.webpush)));
        assert(self.fields()[4] == block_field("apns"@, opt_fields(self.apns)));
        assert(self.fields()[5] == block_field("fcm_options"@, opt_fields(self.fcm_options)));
    }
}

impl<'m> WireBlock for MessageInternal<'m> {
    fn to_json(&self) -> (doc: Json) {
        let (key, text) = self.target.entry();
        ObjectWriter::new()
            .json("data", self.data)
            .block("notification", &self.notification)
            .block("android", &self.android)
            .block("webpush", &self.webpush)
            .block("apns", &self.apns)
            .block("fcm_options", &self.fcm_options)
            .text(key, Some(text))
            .finish()
    }
}

impl<'m> MessageWrapper<'m> {
    /// The envelope of `message`.
    pub fn new(message: &'m MessageInternal<'m>) -> (wrapper: MessageWrapper<'m>)
        ensures
            wrapper.message == message,
    {
        MessageWrapper { message }
    }
}

impl<'a> WireBlock for MessageWrapper<'a> {
    fn to_json(&self) -> (doc: Json) {
        ObjectWriter::new().put("message", Some(self.message.to_json())).finish()
    }
}

} // verus!
