//! What holds of the payload of a message, for every payload and every value.

use crate::content::{
    lemma_audio_message_event_content_decoded, lemma_audio_message_event_content_round_trip,
    lemma_emote_message_event_content_decoded, lemma_emote_message_event_content_round_trip,
    lemma_file_message_event_content_decoded, lemma_file_message_event_content_round_trip,
    lemma_image_message_event_content_decoded, lemma_image_message_event_content_round_trip,
    lemma_location_message_event_content_decoded,
    lemma_location_message_event_content_round_trip, lemma_video_message_event_content_decoded,
    lemma_video_message_event_content_round_trip,
};
use crate::error::SchemaError;
use crate::json::{JsonView, Members};
use crate::message::{tag_of, tagged, unknown_tag, MessageEventContentView};
use crate::names::{lemma_message_kind_of_text, Field, MessageKind};
use crate::object::{lemma_member_with, member, text_of, with, with_opt};
use crate::server_notice::{
    lemma_server_notice_message_event_content_decoded,
    lemma_server_notice_message_event_content_round_trip,
};
use crate::text::{
    lemma_notice_message_event_content_decoded, lemma_notice_message_event_content_round_trip,
    lemma_text_message_event_content_decoded, lemma_text_message_event_content_round_trip,
};
use vstd::prelude::*;

verus! {

/// The members that open a known kind's object hold the tag under `msgtype`
/// and nothing under any other name.
pub proof fn lemma_tagged(kind: MessageKind)
    ensures
        member(tagged(kind), Field::MsgType) == Some(JsonView::String(kind.text())),
        forall|key: Field| key != Field::MsgType ==> member(tagged(kind), key) is None,
{
    lemma_member_with();
}

/// Members that are appended leave what stands under `msgtype` as it is.
pub proof fn lemma_tag_stays(v: MessageEventContentView)
    requires
        v.kind() is Some,
    ensures
        tag_of(v.encode()) == Ok::<Seq<char>, SchemaError>(v.kind()->Some_0.text()),
{
    lemma_member_with();
}

/// Reading a payload that was written gives the payload back, for every
/// known kind that is canonical and for every custom payload whose tag names
/// no known kind.
pub proof fn lemma_content_round_trip(v: MessageEventContentView, rel_types: bool)
    requires
        v.canonical(rel_types),
    ensures
        MessageEventContentView::decode(v.encode(), rel_types) == Ok::<
            MessageEventContentView,
            SchemaError,
        >(v),
{
    lemma_message_kind_of_text();
    match v {
        MessageEventContentView::Audio(c) => {
            lemma_tagged(MessageKind::Audio);
            lemma_tag_stays(v);
            lemma_audio_message_event_content_round_trip(c, tagged(MessageKind::Audio));
        },
        MessageEventContentView::Emote(c) => {
            lemma_tagged(MessageKind::Emote);
            lemma_tag_stays(v);
            lemma_emote_message_event_content_round_trip(c, tagged(MessageKind::Emote));
        },
        MessageEventContentView::File(c) => {
            lemma_tagged(MessageKind::File);
            lemma_tag_stays(v);
            lemma_file_message_event_content_round_trip(c, tagged(MessageKind::File));
        },
        MessageEventContentView::Image(c) => {
            lemma_tagged(MessageKind::Image);
            lemma_tag_stays(v);
            lemma_image_message_event_content_round_trip(c, tagged(MessageKind::Image));
        },
        MessageEventContentView::Location(c) => {
            lemma_tagged(MessageKind::Location);
            lemma_tag_stays(v);
            lemma_location_message_event_content_round_trip(c, tagged(MessageKind::Location));
        },
        MessageEventContentView::Notice(c) => {
            lemma_tagged(MessageKind::Notice);
            lemma_tag_stays(v);
            lemma_notice_message_event_content_round_trip(c, tagged(MessageKind::Notice), rel_types);
        },
        MessageEventContentView::ServerNotice(c) => {
            lemma_tagged(MessageKind::ServerNotice);
            lemma_tag_stays(v);
            lemma_server_notice_message_event_content_round_trip(c, tagged(MessageKind::ServerNotice));
        },
        MessageEventContentView::Text(c) => {
            lemma_tagged(MessageKind::Text);
            lemma_tag_stays(v);
            lemma_text_message_event_content_round_trip(c, tagged(MessageKind::Text), rel_types);
        },
        MessageEventContentView::Video(c) => {
            lemma_tagged(MessageKind::Video);
            lemma_tag_stays(v);
            lemma_video_message_event_content_round_trip(c, tagged(MessageKind::Video));
        },
        MessageEventContentView::Custom(j) => {},
    }
}

/// A payload that is read is canonical: reading never gives a value that
/// writing and reading again would change.
pub proof fn lemma_content_decoded(value: JsonView, rel_types: bool)
    ensures
        MessageEventContentView::decode(value, rel_types) matches Ok(v) ==> v.canonical(rel_types),
{
    match tag_of(value) {
        Ok(tag) => {
            let m = value->Object_0;
            match MessageKind::of_text(tag) {
                Some(MessageKind::Audio) => lemma_audio_message_event_content_decoded(m),
                Some(MessageKind::Emote) => lemma_emote_message_event_content_decoded(m),
                Some(MessageKind::File) => lemma_file_message_event_content_decoded(m),
                Some(MessageKind::Image) => lemma_image_message_event_content_decoded(m),
                Some(MessageKind::Location) => lemma_location_message_event_content_decoded(m),
                Some(MessageKind::Notice) => lemma_notice_message_event_content_decoded(m, rel_types),
                Some(MessageKind::ServerNotice) => lemma_server_notice_message_event_content_decoded(m),
                Some(MessageKind::Text) => lemma_text_message_event_content_decoded(m, rel_types),
                Some(MessageKind::Video) => lemma_video_message_event_content_decoded(m),
                None => {},
            }
        },
        Err(_) => {},
    }
}

/// Writing a payload that was read and reading it again gives the same
/// payload: what a value means does not change on the way through.
pub proof fn lemma_content_decode_stable(value: JsonView, rel_types: bool)
    ensures
        MessageEventContentView::decode(value, rel_types) matches Ok(v)
            ==> MessageEventContentView::decode(v.encode(), rel_types) == Ok::<
            MessageEventContentView,
            SchemaError,
        >(v),
{
    lemma_content_decoded(value, rel_types);
    match MessageEventContentView::decode(value, rel_types) {
        Ok(v) => lemma_content_round_trip(v, rel_types),
        Err(_) => {},
    }
}

/// An object whose tag names no known kind is read as a custom payload that
/// holds the whole object, whatever else the object holds, and that payload is
/// written back as the same object.
pub proof fn lemma_unknown_tag_falls_back(value: JsonView, rel_types: bool)
    requires
        unknown_tag(value),
    ensures
        MessageEventContentView::decode(value, rel_types) == Ok::<
            MessageEventContentView,
            SchemaError,
        >(MessageEventContentView::Custom(value)),
        MessageEventContentView::Custom(value).encode() == value,
        MessageEventContentView::Custom(value).canonical(rel_types),
{
}

/// Only an unknown tag gives a custom payload. A value whose tag names a
/// known kind is read as a payload of that kind or refused; a value without a
/// tag that is text is refused.
pub proof fn lemma_known_tag_never_falls_back(value: JsonView, rel_types: bool)
    ensures
        match MessageEventContentView::decode(value, rel_types) {
            Ok(v) => tag_of(value) matches Ok(tag) && v.kind() == MessageKind::of_text(tag) && (
            v is Custom ==> v == MessageEventContentView::Custom(value)),
            Err(e) => !unknown_tag(value),
        },
        tag_of(value) is Err ==> MessageEventContentView::decode(value, rel_types) == Err::<
            MessageEventContentView,
            SchemaError,
        >(tag_of(value)->Err_0),
{
}

/// A value whose tag names a known kind is refused where `body` cannot be
/// read, and a location is refused where `geo_uri` cannot be read, with the
/// error of that member.
pub proof fn lemma_required_members(value: JsonView, rel_types: bool)
    requires
        tag_of(value) matches Ok(tag) && MessageKind::of_text(tag) is Some,
    ensures
        text_of(value->Object_0, Field::Body) matches Err(e)
            ==> MessageEventContentView::decode(value, rel_types) == Err::<
            MessageEventContentView,
            SchemaError,
        >(e),
        MessageKind::of_text(tag_of(value)->Ok_0) == Some(MessageKind::Location) && text_of(
            value->Object_0,
            Field::Body,
        ) is Ok ==> (text_of(value->Object_0, Field::GeoUri) matches Err(e)
            ==> MessageEventContentView::decode(value, rel_types) == Err::<
            MessageEventContentView,
            SchemaError,
        >(e)),
{
}

/// Whether no member holds `null`.
pub open spec fn no_null_member(m: Members) -> bool {
    forall|i: int| 0 <= i < m.len() ==> !((#[trigger] m[i]).1 is Null)
}

/// Appending a member that is not `null` keeps the members free of `null`.
pub proof fn lemma_no_null_member_with()
    ensures
        no_null_member(Seq::empty()),
        forall|m: Members, field: Field, value: JsonView|
            no_null_member(m) && !(value is Null) ==> #[trigger] no_null_member(
                with(m, field, value),
            ),
        forall|m: Members, field: Field, value: Option<JsonView>|
            no_null_member(m) && value != Some(JsonView::Null) ==> #[trigger] no_null_member(
                with_opt(m, field, value),
            ),
{
    reveal(with);
    reveal(with_opt);
}

/// A payload of a known kind is written as an object none of whose members
/// holds `null`: what is absent is left out.
pub proof fn lemma_no_member_is_null(v: MessageEventContentView, rel_types: bool)
    requires
        v.kind() is Some,
        v.canonical(rel_types),
    ensures
        v.encode() is Object,
        no_null_member(v.encode()->Object_0),
{
    lemma_no_null_member_with();
}

/// The members of a payload that holds nothing but what its kind demands:
/// `msgtype`, `body` and, for a location, `geo_uri`, for a server notice,
/// `server_notice_type`.
pub open spec fn least_members(v: MessageEventContentView) -> Members {
    match v {
        MessageEventContentView::Audio(c) => with(
            tagged(MessageKind::Audio),
            Field::Body,
            JsonView::String(c.body),
        ),
        MessageEventContentView::Emote(c) => with(
            tagged(MessageKind::Emote),
            Field::Body,
            JsonView::String(c.body),
        ),
        MessageEventContentView::File(c) => with(
            tagged(MessageKind::File),
            Field::Body,
            JsonView::String(c.body),
        ),
        MessageEventContentView::Image(c) => with(
            tagged(MessageKind::Image),
            Field::Body,
            JsonView::String(c.body),
        ),
        MessageEventContentView::Location(c) => with(
            with(tagged(MessageKind::Location), Field::Body, JsonView::String(c.body)),
            Field::GeoUri,
            JsonView::String(c.geo_uri),
        ),
        MessageEventContentView::Notice(c) => with(
            tagged(MessageKind::Notice),
            Field::Body,
            JsonView::String(c.body),
        ),
        MessageEventContentView::ServerNotice(c) => with(
            with(tagged(MessageKind::ServerNotice), Field::Body, JsonView::String(c.body)),
            Field::ServerNoticeType,
            JsonView::String(c.server_notice_type.text()),
        ),
        MessageEventContentView::Text(c) => with(
            tagged(MessageKind::Text),
            Field::Body,
            JsonView::String(c.body),
        ),
        MessageEventContentView::Video(c) => with(
            tagged(MessageKind::Video),
            Field::Body,
            JsonView::String(c.body),
        ),
        MessageEventContentView::Custom(_) => Seq::empty(),
    }
}

/// Whether a payload of a known kind holds nothing that may be absent.
pub open spec fn bare(v: MessageEventContentView) -> bool {
    match v {
        MessageEventContentView::Audio(c) => c.info is None && c.url is None && c.file is None,
        MessageEventContentView::Emote(c) => c.formatted is None,
        MessageEventContentView::File(c) => c.filename is None && c.info is None && c.url is None
            && c.file is None,
        MessageEventContentView::Image(c) => c.info is None && c.url is None && c.file is None,
        MessageEventContentView::Location(c) => c.info is None,
        MessageEventContentView::Notice(c) => c.formatted is None && c.relates_to is None,
        MessageEventContentView::ServerNotice(c) => c.admin_contact is None && c.limit_type
            is None,
        MessageEventContentView::Text(c) => c.formatted is None && c.relates_to is None,
        MessageEventContentView::Video(c) => c.info is None && c.url is None && c.file is None,
        MessageEventContentView::Custom(_) => false,
    }
}

/// A payload that holds nothing that may be absent is written as an object of
/// two members, `msgtype` and `body`, in that order, with one more for the
/// kinds that demand one. No member stands for what is absent: none is
/// `null`.
pub proof fn lemma_absent_members_left_out(v: MessageEventContentView)
    requires
        bare(v),
    ensures
        v.encode() == JsonView::Object(least_members(v)),
        least_members(v).len() == (if v is Location || v is ServerNotice {
            3nat
        } else {
            2nat
        }),
        least_members(v)[0] == (Field::MsgType.text(), JsonView::String(v.kind()->Some_0.text())),
        least_members(v)[1].0 == Field::Body.text(),
        least_members(v)[1].1 is String,
        v is Location ==> least_members(v)[2] == (
            Field::GeoUri.text(),
            JsonView::String(v->Location_0.geo_uri),
        ),
        v is ServerNotice ==> least_members(v)[2] == (
            Field::ServerNoticeType.text(),
            JsonView::String(v->ServerNotice_0.server_notice_type.text()),
        ),
{
    reveal(with);
    reveal(with_opt);
}

} // verus!
