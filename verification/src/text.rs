//! The payloads of the messages that are text: a text message and a notice.
//!
//! Both carry a body, a formatted body that lies flat beside it, and the
//! relation to another event under `m.relates_to`.

use crate::error::SchemaError;
use crate::format::{
    fold, folded, hoist, hoisted, lemma_format_text_round_trip, opt_formatted_view,
    FormattedBody, FormattedBodyView, MessageFormatView,
};
use crate::json::{members_view, Json, JsonView, Members};
use crate::names::Field;
use crate::object::{
    get_text, lemma_member_with, member, object, present, put_text, text_of, with, with_opt,
};
use crate::relation_laws::{lemma_relation_decoded, lemma_relation_round_trip};
use crate::relationships::{
    get_opt_relation, opt_relation_view, put_opt_relation, Relation, RelationView,
};
use crate::views::result_view;
use vstd::prelude::*;

verus! {

/// The payload for a notice message.
#[derive(Clone, Debug, PartialEq, Eq)]
pub struct NoticeMessageEventContent {
    /// The notice text to send.
    pub body: String,
    /// Formatted form of the message `body`.
    pub formatted: Option<FormattedBody>,
    /// Information about related messages for rich replies.
    pub relates_to: Option<Relation>,
}

/// The mathematical value of a [`NoticeMessageEventContent`].
pub ghost struct NoticeMessageEventContentView {
    pub body: Seq<char>,
    pub formatted: Option<FormattedBodyView>,
    pub relates_to: Option<RelationView>,
}

impl View for NoticeMessageEventContent {
    type V = NoticeMessageEventContentView;

    open spec fn view(&self) -> NoticeMessageEventContentView {
        NoticeMessageEventContentView {
            body: self.body@,
            formatted: opt_formatted_view(self.formatted),
            relates_to: opt_relation_view(self.relates_to),
        }
    }
}

impl NoticeMessageEventContentView {
    /// The format, where there is one, is canonical, and the relation, where
    /// there is one, comes back from its member.
    pub open spec fn canonical(self, rel_types: bool) -> bool {
        &&& (self.formatted matches Some(f) ==> f.format.canonical())
        &&& (self.relates_to matches Some(r) ==> r.embeddable(rel_types))
    }

    /// The given members with those of the content after them: what is absent
    /// is left out.
    pub open spec fn appended(self, m: Members) -> Members {
        let m = with(m, Field::Body, JsonView::String(self.body));
        let m = hoisted(m, self.formatted);
        let m = with_opt(m, Field::RelatesTo, RelationView::encode_opt(self.relates_to));
        m
    }

    /// The members of the content's object.
    pub open spec fn members(self) -> Members {
        self.appended(Seq::empty())
    }

    /// The JSON value of the content.
    pub open spec fn encode(self) -> JsonView {
        JsonView::Object(self.members())
    }

    /// The content that the members of an object hold, or what is wrong with
    /// `body`. The formatted body and the relation are never refused.
    pub open spec fn decode_members(m: Members, rel_types: bool) -> Result<
        NoticeMessageEventContentView,
        SchemaError,
    > {
        match text_of(m, Field::Body) {
            Ok(body) => Ok(
                NoticeMessageEventContentView {
                    body,
                    formatted: folded(m),
                    relates_to: RelationView::decode_opt(m, Field::RelatesTo, rel_types),
                },
            ),
            Err(e) => Err(e),
        }
    }

    /// The content that a JSON value holds.
    pub open spec fn decode(value: JsonView, rel_types: bool) -> Result<
        NoticeMessageEventContentView,
        SchemaError,
    > {
        match value {
            JsonView::Object(m) => Self::decode_members(m, rel_types),
            _ => Err(SchemaError::NotAnObject),
        }
    }
}

impl NoticeMessageEventContent {
    /// A convenience constructor to create a plain text notice.
    pub fn plain(body: &str) -> (content: NoticeMessageEventContent)
        ensures
            content@ == (NoticeMessageEventContentView {
                body: body@,
                formatted: None,
                relates_to: None,
            }),
    {
        NoticeMessageEventContent { body: body.to_owned(), formatted: None, relates_to: None }
    }

    /// A convenience constructor to create an html notice.
    pub fn html(body: &str, html_body: &str) -> (content: NoticeMessageEventContent)
        ensures
            content@ == (NoticeMessageEventContentView {
                body: body@,
                formatted: Some(
                    FormattedBodyView { format: MessageFormatView::Html, body: html_body@ },
                ),
                relates_to: None,
            }),
    {
        NoticeMessageEventContent {
            body: body.to_owned(),
            formatted: Some(FormattedBody::html(html_body)),
            relates_to: None,
        }
    }

    /// Appends the members of the content: what is absent is left out.
    pub fn append_to(&self, members: &mut Vec<(String, Json)>)
        ensures
            members_view(final(members)@) == self@.appended(members_view(old(members)@)),
    {
        put_text(members, Field::Body, &self.body);
        hoist(members, &self.formatted);
        put_opt_relation(members, Field::RelatesTo, &self.relates_to);
    }

    /// Writes the content as a JSON object.
    pub fn encode(&self) -> (value: Json)
        ensures
            value@ == self@.encode(),
    {
        let mut members: Vec<(String, Json)> = Vec::new();
        self.append_to(&mut members);
        object(members)
    }

    /// Reads the content from the members of an object. With `rel_types` unset
    /// the relations that `rel_type` tells are kept as custom ones.
    pub fn decode_members(members: &Vec<(String, Json)>, rel_types: bool) -> (r: Result<
        NoticeMessageEventContent,
        SchemaError,
    >)
        ensures
            result_view(r) == NoticeMessageEventContentView::decode_members(
                members_view(members@),
                rel_types,
            ),
    {
        let body = match get_text(members, Field::Body) {
            Ok(v) => v,
            Err(e) => return Err(e),
        };
        let formatted = fold(members);
        let relates_to = get_opt_relation(members, Field::RelatesTo, rel_types);
        Ok(NoticeMessageEventContent { body, formatted, relates_to })
    }

    /// Reads the content from a JSON object, every kind of relation taken.
    pub fn decode(value: &Json) -> (r: Result<NoticeMessageEventContent, SchemaError>)
        ensures
            result_view(r) == NoticeMessageEventContentView::decode(value@, true),
    {
        match value {
            Json::Object(members) => NoticeMessageEventContent::decode_members(members, true),
            _ => Err(SchemaError::NotAnObject),
        }
    }
}

/// What is read from a notice message is canonical.
pub proof fn lemma_notice_message_event_content_decoded(m: Members, rel_types: bool)
    ensures
        NoticeMessageEventContentView::decode_members(m, rel_types) matches Ok(v) ==> v.canonical(
            rel_types,
        ),
{
    match present(m, Field::RelatesTo) {
        Some(value) => lemma_relation_decoded(value, rel_types),
        None => {},
    }
}

/// Reading a notice message that was written gives it back: alone, and after
/// members that hold at most `msgtype`.
pub proof fn lemma_notice_message_event_content_round_trip(
    v: NoticeMessageEventContentView,
    m: Members,
    rel_types: bool,
)
    requires
        v.canonical(rel_types),
        forall|key: Field| key != Field::MsgType ==> member(m, key) is None,
    ensures
        NoticeMessageEventContentView::decode_members(v.appended(m), rel_types) == Ok::<
            NoticeMessageEventContentView,
            SchemaError,
        >(v),
        NoticeMessageEventContentView::decode(v.encode(), rel_types) == Ok::<
            NoticeMessageEventContentView,
            SchemaError,
        >(v),
{
    lemma_member_with();
    if v.formatted is Some {
        lemma_format_text_round_trip(v.formatted->Some_0.format);
    }
    if v.relates_to is Some {
        lemma_relation_round_trip(v.relates_to->Some_0, rel_types);
    }
}

/// The payload for a text message.
#[derive(Clone, Debug, PartialEq, Eq)]
pub struct TextMessageEventContent {
    /// The body of the message.
    pub body: String,
    /// Formatted form of the message `body`.
    pub formatted: Option<FormattedBody>,
    /// Information about related messages for rich replies.
    pub relates_to: Option<Relation>,
}

/// The mathematical value of a [`TextMessageEventContent`].
pub ghost struct TextMessageEventContentView {
    pub body: Seq<char>,
    pub formatted: Option<FormattedBodyView>,
    pub relates_to: Option<RelationView>,
}

impl View for TextMessageEventContent {
    type V = TextMessageEventContentView;

    open spec fn view(&self) -> TextMessageEventContentView {
        TextMessageEventContentView {
            body: self.body@,
            formatted: opt_formatted_view(self.formatted),
            relates_to: opt_relation_view(self.relates_to),
        }
    }
}

impl TextMessageEventContentView {
    /// The format, where there is one, is canonical, and the relation, where
    /// there is one, comes back from its member.
    pub open spec fn canonical(self, rel_types: bool) -> bool {
        &&& (self.formatted matches Some(f) ==> f.format.canonical())
        &&& (self.relates_to matches Some(r) ==> r.embeddable(rel_types))
    }

    /// The given members with those of the content after them: what is absent
    /// is left out.
    pub open spec fn appended(self, m: Members) -> Members {
        let m = with(m, Field::Body, JsonView::String(self.body));
        let m = hoisted(m, self.formatted);
        let m = with_opt(m, Field::RelatesTo, RelationView::encode_opt(self.relates_to));
        m
    }

    /// The members of the content's object.
    pub open spec fn members(self) -> Members {
        self.appended(Seq::empty())
    }

    /// The JSON value of the content.
    pub open spec fn encode(self) -> JsonView {
        JsonView::Object(self.members())
    }

    /// The content that the members of an object hold, or what is wrong with
    /// `body`. The formatted body and the relation are never refused.
    pub open spec fn decode_members(m: Members, rel_types: bool) -> Result<
        TextMessageEventContentView,
        SchemaError,
    > {
        match text_of(m, Field::Body) {
            Ok(body) => Ok(
                TextMessageEventContentView {
                    body,
                    formatted: folded(m),
                    relates_to: RelationView::decode_opt(m, Field::RelatesTo, rel_types),
                },
            ),
            Err(e) => Err(e),
        }
    }

    /// The content that a JSON value holds.
    pub open spec fn decode(value: JsonView, rel_types: bool) -> Result<
        TextMessageEventContentView,
        SchemaError,
    > {
        match value {
            JsonView::Object(m) => Self::decode_members(m, rel_types),
            _ => Err(SchemaError::NotAnObject),
        }
    }
}

impl TextMessageEventContent {
    /// A convenience constructor to create a plain text message.
    pub fn plain(body: &str) -> (content: TextMessageEventContent)
        ensures
            content@ == (TextMessageEventContentView {
                body: body@,
                formatted: None,
                relates_to: None,
            }),
    {
        TextMessageEventContent { body: body.to_owned(), formatted: None, relates_to: None }
    }

    /// A convenience constructor to create an html message.
    pub fn html(body: &str, html_body: &str) -> (content: TextMessageEventContent)
        ensures
            content@ == (TextMessageEventContentView {
                body: body@,
                formatted: Some(
                    FormattedBodyView { format: MessageFormatView::Html, body: html_body@ },
                ),
                relates_to: None,
            }),
    {
        TextMessageEventContent {
            body: body.to_owned(),
            formatted: Some(FormattedBody::html(html_body)),
            relates_to: None,
        }
    }

    /// A convenience constructor to create a plain text message.
    pub fn new_plain(body: &str) -> (content: TextMessageEventContent)
        ensures
            content@ == (TextMessageEventContentView {
                body: body@,
                formatted: None,
                relates_to: None,
            }),
    {
        TextMessageEventContent::plain(body)
    }

    /// Appends the members of the content: what is absent is left out.
    pub fn append_to(&self, members: &mut Vec<(String, Json)>)
        ensures
            members_view(final(members)@) == self@.appended(members_view(old(members)@)),
    {
        put_text(members, Field::Body, &self.body);
        hoist(members, &self.formatted);
        put_opt_relation(members, Field::RelatesTo, &self.relates_to);
    }

    /// Writes the content as a JSON object.
    pub fn encode(&self) -> (value: Json)
        ensures
            value@ == self@.encode(),
    {
        let mut members: Vec<(String, Json)> = Vec::new();
        self.append_to(&mut members);
        object(members)
    }

    /// Reads the content from the members of an object. With `rel_types` unset
    /// the relations that `rel_type` tells are kept as custom ones.
    pub fn decode_members(members: &Vec<(String, Json)>, rel_types: bool) -> (r: Result<
        TextMessageEventContent,
        SchemaError,
    >)
        ensures
            result_view(r) == TextMessageEventContentView::decode_members(
                members_view(members@),
                rel_types,
            ),
    {
        let body = match get_text(members, Field::Body) {
            Ok(v) => v,
            Err(e) => return Err(e),
        };
        let formatted = fold(members);
        let relates_to = get_opt_relation(members, Field::RelatesTo, rel_types);
        Ok(TextMessageEventContent { body, formatted, relates_to })
    }

    /// Reads the content from a JSON object, every kind of relation taken.
    pub fn decode(value: &Json) -> (r: Result<TextMessageEventContent, SchemaError>)
        ensures
            result_view(r) == TextMessageEventContentView::decode(value@, true),
    {
        match value {
            Json::Object(members) => TextMessageEventContent::decode_members(members, true),
            _ => Err(SchemaError::NotAnObject),
        }
    }
}

/// What is read from a text message is canonical.
pub proof fn lemma_text_message_event_content_decoded(m: Members, rel_types: bool)
    ensures
        TextMessageEventContentView::decode_members(m, rel_types) matches Ok(v) ==> v.canonical(
            rel_types,
        ),
{
    match present(m, Field::RelatesTo) {
        Some(value) => lemma_relation_decoded(value, rel_types),
        None => {},
    }
}

/// Reading a text message that was written gives it back: alone, and after
/// members that hold at most `msgtype`.
pub proof fn lemma_text_message_event_content_round_trip(
    v: TextMessageEventContentView,
    m: Members,
    rel_types: bool,
)
    requires
        v.canonical(rel_types),
        forall|key: Field| key != Field::MsgType ==> member(m, key) is None,
    ensures
        TextMessageEventContentView::decode_members(v.appended(m), rel_types) == Ok::<
            TextMessageEventContentView,
            SchemaError,
        >(v),
        TextMessageEventContentView::decode(v.encode(), rel_types) == Ok::<
            TextMessageEventContentView,
            SchemaError,
        >(v),
{
    lemma_member_with();
    if v.formatted is Some {
        lemma_format_text_round_trip(v.formatted->Some_0.format);
    }
    if v.relates_to is Some {
        lemma_relation_round_trip(v.relates_to->Some_0, rel_types);
    }
}

} // verus!
