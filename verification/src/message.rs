//! The payload of a message: one of the kinds that have a shape of their own,
//! or a custom payload that keeps whatever an unknown kind brought.
//!
//! On the wire every payload is one object. Its member `msgtype` tells the
//! kind, and the members of the kind lie beside it. Reading goes by the tag:
//!
//! - a value that is no object, or has no `msgtype`, or one that is no text,
//!   is refused;
//! - a tag that names a known kind selects that kind's shape, and a member of
//!   that shape that cannot be read is an error, never a fallback;
//! - any other tag gives a custom payload that holds the whole object.

use crate::content::{
    AudioMessageEventContent, AudioMessageEventContentView, EmoteMessageEventContent,
    EmoteMessageEventContentView, FileMessageEventContent, FileMessageEventContentView,
    ImageMessageEventContent, ImageMessageEventContentView, LocationMessageEventContent,
    LocationMessageEventContentView, VideoMessageEventContent, VideoMessageEventContentView,
};
use crate::error::SchemaError;
use crate::json::{members_view, str_eq, Json, JsonView, Members};
use crate::names::{Field, MessageKind};
use crate::object::{find, member, object, put_text, with};
use crate::server_notice::{ServerNoticeMessageEventContent, ServerNoticeMessageEventContentView};
use crate::text::{
    NoticeMessageEventContent, NoticeMessageEventContentView, TextMessageEventContent,
    TextMessageEventContentView,
};
use crate::views::result_view;
use vstd::prelude::*;

verus! {

/// The payload for a message.
#[derive(Clone, Debug, PartialEq, Eq)]
#[non_exhaustive]
pub enum MessageEventContent {
    /// An audio message.
    Audio(AudioMessageEventContent),
    /// An emote message.
    Emote(EmoteMessageEventContent),
    /// A file message.
    File(FileMessageEventContent),
    /// An image message.
    Image(ImageMessageEventContent),
    /// A location message.
    Location(LocationMessageEventContent),
    /// A notice message.
    Notice(NoticeMessageEventContent),
    /// A server notice message.
    ServerNotice(ServerNoticeMessageEventContent),
    /// A text message.
    Text(TextMessageEventContent),
    /// A video message.
    Video(VideoMessageEventContent),
    /// A message of a kind that has no shape of its own here: the whole
    /// object, as it came.
    Custom(Json),
}

/// The mathematical value of a [`MessageEventContent`].
pub ghost enum MessageEventContentView {
    Audio(AudioMessageEventContentView),
    Emote(EmoteMessageEventContentView),
    File(FileMessageEventContentView),
    Image(ImageMessageEventContentView),
    Location(LocationMessageEventContentView),
    Notice(NoticeMessageEventContentView),
    ServerNotice(ServerNoticeMessageEventContentView),
    Text(TextMessageEventContentView),
    Video(VideoMessageEventContentView),
    Custom(JsonView),
}

impl View for MessageEventContent {
    type V = MessageEventContentView;

    open spec fn view(&self) -> MessageEventContentView {
        match self {
            MessageEventContent::Audio(c) => MessageEventContentView::Audio(c@),
            MessageEventContent::Emote(c) => MessageEventContentView::Emote(c@),
            MessageEventContent::File(c) => MessageEventContentView::File(c@),
            MessageEventContent::Image(c) => MessageEventContentView::Image(c@),
            MessageEventContent::Location(c) => MessageEventContentView::Location(c@),
            MessageEventContent::Notice(c) => MessageEventContentView::Notice(c@),
            MessageEventContent::ServerNotice(c) => MessageEventContentView::ServerNotice(c@),
            MessageEventContent::Text(c) => MessageEventContentView::Text(c@),
            MessageEventContent::Video(c) => MessageEventContentView::Video(c@),
            MessageEventContent::Custom(j) => MessageEventContentView::Custom(j@),
        }
    }
}

/// The type of the event that carries a message.
pub open spec fn event_type_text() -> Seq<char> {
    "m.room.message"@
}

/// The members that open the object of a known kind: `msgtype` with its tag.
pub open spec fn tagged(kind: MessageKind) -> Members {
    with(Seq::empty(), Field::MsgType, JsonView::String(kind.text()))
}

/// The tag of a value: the text under `msgtype`, or why there is none.
pub open spec fn tag_of(value: JsonView) -> Result<Seq<char>, SchemaError> {
    match value {
        JsonView::Object(m) => match member(m, Field::MsgType) {
            Some(JsonView::String(tag)) => Ok(tag),
            Some(_) => Err(SchemaError::WrongType(Field::MsgType)),
            None => Err(SchemaError::Missing(Field::MsgType)),
        },
        _ => Err(SchemaError::NotAnObject),
    }
}

/// Whether a value is an object whose tag names no known kind.
pub open spec fn unknown_tag(value: JsonView) -> bool {
    tag_of(value) matches Ok(tag) && MessageKind::of_text(tag) is None
}

impl MessageEventContentView {
    /// The kind of the payload, if it is of a known one.
    pub open spec fn kind(self) -> Option<MessageKind> {
        match self {
            MessageEventContentView::Audio(_) => Some(MessageKind::Audio),
            MessageEventContentView::Emote(_) => Some(MessageKind::Emote),
            MessageEventContentView::File(_) => Some(MessageKind::File),
            MessageEventContentView::Image(_) => Some(MessageKind::Image),
            MessageEventContentView::Location(_) => Some(MessageKind::Location),
            MessageEventContentView::Notice(_) => Some(MessageKind::Notice),
            MessageEventContentView::ServerNotice(_) => Some(MessageKind::ServerNotice),
            MessageEventContentView::Text(_) => Some(MessageKind::Text),
            MessageEventContentView::Video(_) => Some(MessageKind::Video),
            MessageEventContentView::Custom(_) => None,
        }
    }

    /// What a payload has to hold so that reading gives it back after
    /// writing: a known kind is canonical, and a custom payload is an object
    /// whose tag names no known kind.
    pub open spec fn canonical(self, rel_types: bool) -> bool {
        match self {
            MessageEventContentView::Audio(c) => c.canonical(),
            MessageEventContentView::Emote(c) => c.canonical(),
            MessageEventContentView::File(c) => c.canonical(),
            MessageEventContentView::Image(c) => c.canonical(),
            MessageEventContentView::Location(c) => c.canonical(),
            MessageEventContentView::Notice(c) => c.canonical(rel_types),
            MessageEventContentView::ServerNotice(c) => c.canonical(),
            MessageEventContentView::Text(c) => c.canonical(rel_types),
            MessageEventContentView::Video(c) => c.canonical(),
            MessageEventContentView::Custom(j) => unknown_tag(j),
        }
    }

    /// The JSON value of the payload: for a known kind the tag, then the
    /// members of the kind; for a custom payload the object that it holds.
    pub open spec fn encode(self) -> JsonView {
        match self {
            MessageEventContentView::Audio(c) => JsonView::Object(
                c.appended(tagged(MessageKind::Audio)),
            ),
            MessageEventContentView::Emote(c) => JsonView::Object(
                c.appended(tagged(MessageKind::Emote)),
            ),
            MessageEventContentView::File(c) => JsonView::Object(
                c.appended(tagged(MessageKind::File)),
            ),
            MessageEventContentView::Image(c) => JsonView::Object(
                c.appended(tagged(MessageKind::Image)),
            ),
            MessageEventContentView::Location(c) => JsonView::Object(
                c.appended(tagged(MessageKind::Location)),
            ),
            MessageEventContentView::Notice(c) => JsonView::Object(
                c.appended(tagged(MessageKind::Notice)),
            ),
            MessageEventContentView::ServerNotice(c) => JsonView::Object(
                c.appended(tagged(MessageKind::ServerNotice)),
            ),
            MessageEventContentView::Text(c) => JsonView::Object(
                c.appended(tagged(MessageKind::Text)),
            ),
            MessageEventContentView::Video(c) => JsonView::Object(
                c.appended(tagged(MessageKind::Video)),
            ),
            MessageEventContentView::Custom(j) => j,
        }
    }

    /// The payload of a known kind that the members of an object hold.
    pub open spec fn decode_known(kind: MessageKind, m: Members, rel_types: bool) -> Result<
        MessageEventContentView,
        SchemaError,
    > {
        match kind {
            MessageKind::Audio => match AudioMessageEventContentView::decode_members(m) {
                Ok(c) => Ok(MessageEventContentView::Audio(c)),
                Err(e) => Err(e),
            },
            MessageKind::Emote => match EmoteMessageEventContentView::decode_members(m) {
                Ok(c) => Ok(MessageEventContentView::Emote(c)),
                Err(e) => Err(e),
            },
            MessageKind::File => match FileMessageEventContentView::decode_members(m) {
                Ok(c) => Ok(MessageEventContentView::File(c)),
                Err(e) => Err(e),
            },
            MessageKind::Image => match ImageMessageEventContentView::decode_members(m) {
                Ok(c) => Ok(MessageEventContentView::Image(c)),
                Err(e) => Err(e),
            },
            MessageKind::Location => match LocationMessageEventContentView::decode_members(m) {
                Ok(c) => Ok(MessageEventContentView::Location(c)),
                Err(e) => Err(e),
            },
            MessageKind::Notice => match NoticeMessageEventContentView::decode_members(m, rel_types) {
                Ok(c) => Ok(MessageEventContentView::Notice(c)),
                Err(e) => Err(e),
            },
            MessageKind::ServerNotice => match ServerNoticeMessageEventContentView::decode_members(m) {
                Ok(c) => Ok(MessageEventContentView::ServerNotice(c)),
                Err(e) => Err(e),
            },
            MessageKind::Text => match TextMessageEventContentView::decode_members(m, rel_types) {
                Ok(c) => Ok(MessageEventContentView::Text(c)),
                Err(e) => Err(e),
            },
            MessageKind::Video => match VideoMessageEventContentView::decode_members(m) {
                Ok(c) => Ok(MessageEventContentView::Video(c)),
                Err(e) => Err(e),
            },
        }
    }

    /// The payload that a JSON value holds. With `rel_types` unset the
    /// relations that `rel_type` tells are kept as custom ones.
    pub open spec fn decode(value: JsonView, rel_types: bool) -> Result<
        MessageEventContentView,
        SchemaError,
    > {
        match tag_of(value) {
            Ok(tag) => match MessageKind::of_text(tag) {
                Some(kind) => Self::decode_known(kind, value->Object_0, rel_types),
                None => Ok(MessageEventContentView::Custom(value)),
            },
            Err(e) => Err(e),
        }
    }

    /// The payload that the content of an event of the given type holds.
    pub open spec fn decode_content(value: JsonView, event_type: Seq<char>) -> Result<
        MessageEventContentView,
        SchemaError,
    > {
        if event_type == event_type_text() {
            Self::decode(value, true)
        } else {
            Err(SchemaError::EventType)
        }
    }
}

impl MessageEventContent {
    /// A convenience constructor to create a plain text message.
    pub fn text_plain(body: &str) -> (content: MessageEventContent)
        ensures
            content@ == MessageEventContentView::Text(
                TextMessageEventContentView { body: body@, formatted: None, relates_to: None },
            ),
    {
        MessageEventContent::Text(TextMessageEventContent::plain(body))
    }

    /// A convenience constructor to create an html message.
    pub fn text_html(body: &str, html_body: &str) -> (content: MessageEventContent)
        ensures
            content@ == MessageEventContentView::Text(
                TextMessageEventContentView {
                    body: body@,
                    formatted: Some(
                        crate::format::FormattedBodyView {
                            format: crate::format::MessageFormatView::Html,
                            body: html_body@,
                        },
                    ),
                    relates_to: None,
                },
            ),
    {
        MessageEventContent::Text(TextMessageEventContent::html(body, html_body))
    }

    /// A convenience constructor to create an plain text notice.
    pub fn notice_plain(body: &str) -> (content: MessageEventContent)
        ensures
            content@ == MessageEventContentView::Notice(
                NoticeMessageEventContentView { body: body@, formatted: None, relates_to: None },
            ),
    {
        MessageEventContent::Notice(NoticeMessageEventContent::plain(body))
    }

    /// A convenience constructor to create an html notice.
    pub fn notice_html(body: &str, html_body: &str) -> (content: MessageEventContent)
        ensures
            content@ == MessageEventContentView::Notice(
                NoticeMessageEventContentView {
                    body: body@,
                    formatted: Some(
                        crate::format::FormattedBodyView {
                            format: crate::format::MessageFormatView::Html,
                            body: html_body@,
                        },
                    ),
                    relates_to: None,
                },
            ),
    {
        MessageEventContent::Notice(NoticeMessageEventContent::html(body, html_body))
    }

    /// The type of the event that carries a message.
    pub fn event_type() -> (text: &'static str)
        ensures
            text@ == event_type_text(),
    {
        "m.room.message"
    }

    /// The kind of the payload, if it is of a known one.
    pub fn kind(&self) -> (kind: Option<MessageKind>)
        ensures
            kind == self@.kind(),
    {
        match self {
            MessageEventContent::Audio(_) => Some(MessageKind::Audio),
            MessageEventContent::Emote(_) => Some(MessageKind::Emote),
            MessageEventContent::File(_) => Some(MessageKind::File),
            MessageEventContent::Image(_) => Some(MessageKind::Image),
            MessageEventContent::Location(_) => Some(MessageKind::Location),
            MessageEventContent::Notice(_) => Some(MessageKind::Notice),
            MessageEventContent::ServerNotice(_) => Some(MessageKind::ServerNotice),
            MessageEventContent::Text(_) => Some(MessageKind::Text),
            MessageEventContent::Video(_) => Some(MessageKind::Video),
            MessageEventContent::Custom(_) => None,
        }
    }

    /// Opens the object of a known kind: `msgtype` with its tag.
    fn open(kind: MessageKind) -> (members: Vec<(String, Json)>)
        ensures
            members_view(members@) == tagged(kind),
    {
        let mut members: Vec<(String, Json)> = Vec::new();
        let tag = kind.name().to_owned();
        put_text(&mut members, Field::MsgType, &tag);
        members
    }

    /// Writes the payload as a JSON value. A known kind gives an object that
    /// starts with `msgtype`; what is absent is left out, never written as
    /// `null`. A custom payload gives the object that it holds.
    pub fn encode(&self) -> (value: Json)
        ensures
            value@ == self@.encode(),
    {
        match self {
            MessageEventContent::Audio(c) => {
                let mut members = MessageEventContent::open(MessageKind::Audio);
                c.append_to(&mut members);
                object(members)
            },
            MessageEventContent::Emote(c) => {
                let mut members = MessageEventContent::open(MessageKind::Emote);
                c.append_to(&mut members);
                object(members)
            },
            MessageEventContent::File(c) => {
                let mut members = MessageEventContent::open(MessageKind::File);
                c.append_to(&mut members);
                object(members)
            },
            MessageEventContent::Image(c) => {
                let mut members = MessageEventContent::open(MessageKind::Image);
                c.append_to(&mut members);
                object(members)
            },
            MessageEventContent::Location(c) => {
                let mut members = MessageEventContent::open(MessageKind::Location);
                c.append_to(&mut members);
                object(members)
            },
            MessageEventContent::Notice(c) => {
                let mut members = MessageEventContent::open(MessageKind::Notice);
                c.append_to(&mut members);
                object(members)
            },
            MessageEventContent::ServerNotice(c) => {
                let mut members = MessageEventContent::open(MessageKind::ServerNotice);
                c.append_to(&mut members);
                object(members)
            },
            MessageEventContent::Text(c) => {
                let mut members = MessageEventContent::open(MessageKind::Text);
                c.append_to(&mut members);
                object(members)
            },
            MessageEventContent::Video(c) => {
                let mut members = MessageEventContent::open(MessageKind::Video);
                c.append_to(&mut members);
                object(members)
            },
            MessageEventContent::Custom(j) => j.clone(),
        }
    }

    /// Reads the tag of a value: the text under `msgtype`.
    pub fn read_tag(value: &Json) -> (r: Result<&String, SchemaError>)
        ensures
            match r {
                Ok(tag) => tag_of(value@) == Ok::<Seq<char>, SchemaError>(tag@),
                Err(e) => tag_of(value@) == Err::<Seq<char>, SchemaError>(e),
            },
    {
        match value {
            Json::Object(members) => match find(members, Field::MsgType) {
                Some(Json::String(tag)) => Ok(tag),
                Some(_) => Err(SchemaError::WrongType(Field::MsgType)),
                None => Err(SchemaError::Missing(Field::MsgType)),
            },
            _ => Err(SchemaError::NotAnObject),
        }
    }

    /// Reads the payload of a known kind from the members of an object.
    pub fn decode_known(kind: MessageKind, members: &Vec<(String, Json)>, rel_types: bool) -> (r:
        Result<MessageEventContent, SchemaError>)
        ensures
            result_view(r) == MessageEventContentView::decode_known(
                kind,
                members_view(members@),
                rel_types,
            ),
    {
        match kind {
            MessageKind::Audio => match AudioMessageEventContent::decode_members(members) {
                Ok(c) => Ok(MessageEventContent::Audio(c)),
                Err(e) => Err(e),
            },
            MessageKind::Emote => match EmoteMessageEventContent::decode_members(members) {
                Ok(c) => Ok(MessageEventContent::Emote(c)),
                Err(e) => Err(e),
            },
            MessageKind::File => match FileMessageEventContent::decode_members(members) {
                Ok(c) => Ok(MessageEventContent::File(c)),
                Err(e) => Err(e),
            },
            MessageKind::Image => match ImageMessageEventContent::decode_members(members) {
                Ok(c) => Ok(MessageEventContent::Image(c)),
                Err(e) => Err(e),
            },
            MessageKind::Location => match LocationMessageEventContent::decode_members(members) {
                Ok(c) => Ok(MessageEventContent::Location(c)),
                Err(e) => Err(e),
            },
            MessageKind::Notice => match NoticeMessageEventContent::decode_members(members, rel_types) {
                Ok(c) => Ok(MessageEventContent::Notice(c)),
                Err(e) => Err(e),
            },
            MessageKind::ServerNotice => match ServerNoticeMessageEventContent::decode_members(members) {
                Ok(c) => Ok(MessageEventContent::ServerNotice(c)),
                Err(e) => Err(e),
            },
            MessageKind::Text => match TextMessageEventContent::decode_members(members, rel_types) {
                Ok(c) => Ok(MessageEventContent::Text(c)),
                Err(e) => Err(e),
            },
            MessageKind::Video => match VideoMessageEventContent::decode_members(members) {
                Ok(c) => Ok(MessageEventContent::Video(c)),
                Err(e) => Err(e),
            },
        }
    }

    /// Reads a payload from a JSON value. With `rel_types` unset the relations
    /// that `rel_type` tells are kept as custom ones.
    pub fn decode_with(value: &Json, rel_types: bool) -> (r: Result<
        MessageEventContent,
        SchemaError,
    >)
        ensures
            result_view(r) == MessageEventContentView::decode(value@, rel_types),
    {
        let tag = match MessageEventContent::read_tag(value) {
            Ok(tag) => tag,
            Err(e) => return Err(e),
        };
        match MessageKind::parse(tag.as_str()) {
            Some(kind) => match value {
                Json::Object(members) => MessageEventContent::decode_known(kind, members, rel_types),
                _ => Err(SchemaError::NotAnObject),
            },
            None => Ok(MessageEventContent::Custom(value.clone())),
        }
    }

    /// Reads a payload from a JSON value, every kind of relation taken.
    pub fn decode(value: &Json) -> (r: Result<MessageEventContent, SchemaError>)
        ensures
            result_view(r) == MessageEventContentView::decode(value@, true),
    {
        MessageEventContent::decode_with(value, true)
    }
}

/// Writes the content of a message event.
pub fn encode_content(content: &MessageEventContent) -> (value: Json)
    ensures
        value@ == content@.encode(),
{
    content.encode()
}

/// Reads the content of an event of the given type. An event of another type
/// than `m.room.message` carries no message: its content is refused.
pub fn decode_content(value: &Json, event_type: &str) -> (r: Result<
    MessageEventContent,
    SchemaError,
>)
    ensures
        result_view(r) == MessageEventContentView::decode_content(value@, event_type@),
{
    if str_eq(event_type, MessageEventContent::event_type()) {
        MessageEventContent::decode(value)
    } else {
        Err(SchemaError::EventType)
    }
}

} // verus!
