//! The words of the wire format: the names of object members, and the tags
//! that tell the kinds of message and of relation apart.
//!
//! Every word is matched exactly: case counts, and nothing is trimmed.

use crate::json::str_eq;
use vstd::prelude::*;

verus! {

/// The name of an object member.
#[derive(Clone, Copy, Debug, PartialEq, Eq, Structural)]
pub enum Field {
    /// `body`: the readable text of a message.
    Body,
    /// `msgtype`: the kind of a message.
    MsgType,
    /// `url`: where the content lies.
    Url,
    /// `info`: what is known of the content.
    Info,
    /// `file`: the encrypted content.
    File,
    /// `filename`: the name that the file was sent under.
    Filename,
    /// `format`: the format of the formatted body.
    Format,
    /// `formatted_body`: the formatted text of a message.
    FormattedBody,
    /// `m.relates_to`: the event that a message relates to.
    RelatesTo,
    /// `geo_uri`: the place, as a geo URI.
    GeoUri,
    /// `server_notice_type`: the kind of a server notice.
    ServerNoticeType,
    /// `admin_contact`: how to reach the server's administrator.
    AdminContact,
    /// `limit_type`: the limit that the server has passed.
    LimitType,
    /// `duration`: a length of time in milliseconds.
    Duration,
    /// `mimetype`: the MIME type of the content.
    Mimetype,
    /// `size`: a size in bytes.
    Size,
    /// `h`: a height in pixels.
    Height,
    /// `w`: a width in pixels.
    Width,
    /// `thumbnail_info`: what is known of the thumbnail.
    ThumbnailInfo,
    /// `thumbnail_url`: where the thumbnail lies.
    ThumbnailUrl,
    /// `thumbnail_file`: the encrypted thumbnail.
    ThumbnailFile,
    /// `key`: a key: that of an encrypted file, or that of an annotation.
    Key,
    /// `iv`: the initialisation vector of an encrypted file.
    Iv,
    /// `hashes`: the hashes of an encrypted file, by algorithm.
    Hashes,
    /// `v`: the version of the encryption scheme.
    Version,
    /// `kty`: the type of a web key.
    Kty,
    /// `key_ops`: what a web key may be used for.
    KeyOps,
    /// `alg`: the algorithm of a web key.
    Alg,
    /// `k`: the web key itself.
    K,
    /// `ext`: whether a web key may be extracted.
    Ext,
    /// `m.in_reply_to`: the event that a reply answers.
    InReplyTo,
    /// `rel_type`: the kind of a relation.
    RelType,
    /// `event_id`: the identifier of an event.
    EventId,
    /// `type`: the kind of a bundled annotation.
    Type,
    /// `origin_server_ts`: when the server put a summary together.
    OriginServerTs,
    /// `count`: how often a key was used.
    Count,
    /// `chunk`: one batch of bundled annotations.
    Chunk,
    /// `next_batch`: the token for the next batch.
    NextBatch,
    /// `m.annotation`: the bundled annotations of an event.
    Annotation,
    /// `content`: the payload of an event.
    Content,
    /// `sender`: who sent the event.
    Sender,
    /// `room_id`: the room of the event.
    RoomId,
    /// `unsigned`: what the server adds to an event.
    Unsigned,
    /// `age`: the age of an event in milliseconds.
    Age,
    /// `transaction_id`: the transaction in which the client sent the event.
    TransactionId,
    /// `m.relations`: the relations that the server has gathered.
    Relations,
}

impl Field {
    /// The name as it stands on the wire.
    pub open spec fn text(self) -> Seq<char> {
        match self {
            Field::Body => "body"@,
            Field::MsgType => "msgtype"@,
            Field::Url => "url"@,
            Field::Info => "info"@,
            Field::File => "file"@,
            Field::Filename => "filename"@,
            Field::Format => "format"@,
            Field::FormattedBody => "formatted_body"@,
            Field::RelatesTo => "m.relates_to"@,
            Field::GeoUri => "geo_uri"@,
            Field::ServerNoticeType => "server_notice_type"@,
            Field::AdminContact => "admin_contact"@,
            Field::LimitType => "limit_type"@,
            Field::Duration => "duration"@,
            Field::Mimetype => "mimetype"@,
            Field::Size => "size"@,
            Field::Height => "h"@,
            Field::Width => "w"@,
            Field::ThumbnailInfo => "thumbnail_info"@,
            Field::ThumbnailUrl => "thumbnail_url"@,
            Field::ThumbnailFile => "thumbnail_file"@,
            Field::Key => "key"@,
            Field::Iv => "iv"@,
            Field::Hashes => "hashes"@,
            Field::Version => "v"@,
            Field::Kty => "kty"@,
            Field::KeyOps => "key_ops"@,
            Field::Alg => "alg"@,
            Field::K => "k"@,
            Field::Ext => "ext"@,
            Field::InReplyTo => "m.in_reply_to"@,
            Field::RelType => "rel_type"@,
            Field::EventId => "event_id"@,
            Field::Type => "type"@,
            Field::OriginServerTs => "origin_server_ts"@,
            Field::Count => "count"@,
            Field::Chunk => "chunk"@,
            Field::NextBatch => "next_batch"@,
            Field::Annotation => "m.annotation"@,
            Field::Content => "content"@,
            Field::Sender => "sender"@,
            Field::RoomId => "room_id"@,
            Field::Unsigned => "unsigned"@,
            Field::Age => "age"@,
            Field::TransactionId => "transaction_id"@,
            Field::Relations => "m.relations"@,
        }
    }

    /// The name as it stands on the wire.
    pub fn name(self) -> (name: &'static str)
        ensures
            name@ == self.text(),
    {
        match self {
            Field::Body => "body",
            Field::MsgType => "msgtype",
            Field::Url => "url",
            Field::Info => "info",
            Field::File => "file",
            Field::Filename => "filename",
            Field::Format => "format",
            Field::FormattedBody => "formatted_body",
            Field::RelatesTo => "m.relates_to",
            Field::GeoUri => "geo_uri",
            Field::ServerNoticeType => "server_notice_type",
            Field::AdminContact => "admin_contact",
            Field::LimitType => "limit_type",
            Field::Duration => "duration",
            Field::Mimetype => "mimetype",
            Field::Size => "size",
            Field::Height => "h",
            Field::Width => "w",
            Field::ThumbnailInfo => "thumbnail_info",
            Field::ThumbnailUrl => "thumbnail_url",
            Field::ThumbnailFile => "thumbnail_file",
            Field::Key => "key",
            Field::Iv => "iv",
            Field::Hashes => "hashes",
            Field::Version => "v",
            Field::Kty => "kty",
            Field::KeyOps => "key_ops",
            Field::Alg => "alg",
            Field::K => "k",
            Field::Ext => "ext",
            Field::InReplyTo => "m.in_reply_to",
            Field::RelType => "rel_type",
            Field::EventId => "event_id",
            Field::Type => "type",
            Field::OriginServerTs => "origin_server_ts",
            Field::Count => "count",
            Field::Chunk => "chunk",
            Field::NextBatch => "next_batch",
            Field::Annotation => "m.annotation",
            Field::Content => "content",
            Field::Sender => "sender",
            Field::RoomId => "room_id",
            Field::Unsigned => "unsigned",
            Field::Age => "age",
            Field::TransactionId => "transaction_id",
            Field::Relations => "m.relations",
        }
    }
}

/// No two members share a name.
pub proof fn lemma_field_names_differ()
    ensures
        forall|a: Field, b: Field| a.text() == b.text() ==> a == b,
{
    reveal_strlit("body");
    assert("body"@.len() == 4 && "body"@[0] == 'b' && "body"@[1] == 'o');
    reveal_strlit("msgtype");
    assert("msgtype"@.len() == 7 && "msgtype"@[0] == 'm' && "msgtype"@[1] == 's');
    reveal_strlit("url");
    assert("url"@.len() == 3 && "url"@[0] == 'u' && "url"@[1] == 'r');
    reveal_strlit("info");
    assert("info"@.len() == 4 && "info"@[0] == 'i' && "info"@[1] == 'n');
    reveal_strlit("file");
    assert("file"@.len() == 4 && "file"@[0] == 'f' && "file"@[1] == 'i');
    reveal_strlit("filename");
    assert("filename"@.len() == 8 && "filename"@[0] == 'f' && "filename"@[1] == 'i');
    reveal_strlit("format");
    assert("format"@.len() == 6 && "format"@[0] == 'f' && "format"@[1] == 'o');
    reveal_strlit("formatted_body");
    assert("formatted_body"@.len() == 14 && "formatted_body"@[0] == 'f' && "formatted_body"@[1] == 'o' && "formatted_body"@[10] == 'b');
    reveal_strlit("m.relates_to");
    assert("m.relates_to"@.len() == 12 && "m.relates_to"@[0] == 'm' && "m.relates_to"@[1] == '.' && "m.relates_to"@[10] == 't');
    reveal_strlit("geo_uri");
    assert("geo_uri"@.len() == 7 && "geo_uri"@[0] == 'g' && "geo_uri"@[1] == 'e');
    reveal_strlit("server_notice_type");
    assert("server_notice_type"@.len() == 18 && "server_notice_type"@[0] == 's' && "server_notice_type"@[1] == 'e' && "server_notice_type"@[10] == 'i');
    reveal_strlit("admin_contact");
    assert("admin_contact"@.len() == 13 && "admin_contact"@[0] == 'a' && "admin_contact"@[1] == 'd' && "admin_contact"@[10] == 'a');
    reveal_strlit("limit_type");
    assert("limit_type"@.len() == 10 && "limit_type"@[0] == 'l' && "limit_type"@[1] == 'i');
    reveal_strlit("duration");
    assert("duration"@.len() == 8 && "duration"@[0] == 'd' && "duration"@[1] == 'u');
    reveal_strlit("mimetype");
    assert("mimetype"@.len() == 8 && "mimetype"@[0] == 'm' && "mimetype"@[1] == 'i');
    reveal_strlit("size");
    assert("size"@.len() == 4 && "size"@[0] == 's' && "size"@[1] == 'i');
    reveal_strlit("h");
    assert("h"@.len() == 1 && "h"@[0] == 'h');
    reveal_strlit("w");
    assert("w"@.len() == 1 && "w"@[0] == 'w');
    reveal_strlit("thumbnail_info");
    assert("thumbnail_info"@.len() == 14 && "thumbnail_info"@[0] == 't' && "thumbnail_info"@[1] == 'h' && "thumbnail_info"@[10] == 'i');
    reveal_strlit("thumbnail_url");
    assert("thumbnail_url"@.len() == 13 && "thumbnail_url"@[0] == 't' && "thumbnail_url"@[1] == 'h' && "thumbnail_url"@[10] == 'u');
    reveal_strlit("thumbnail_file");
    assert("thumbnail_file"@.len() == 14 && "thumbnail_file"@[0] == 't' && "thumbnail_file"@[1] == 'h' && "thumbnail_file"@[10] == 'f');
    reveal_strlit("key");
    assert("key"@.len() == 3 && "key"@[0] == 'k' && "key"@[1] == 'e');
    reveal_strlit("iv");
    assert("iv"@.len() == 2 && "iv"@[0] == 'i' && "iv"@[1] == 'v');
    reveal_strlit("hashes");
    assert("hashes"@.len() == 6 && "hashes"@[0] == 'h' && "hashes"@[1] == 'a');
    reveal_strlit("v");
    assert("v"@.len() == 1 && "v"@[0] == 'v');
    reveal_strlit("kty");
    assert("kty"@.len() == 3 && "kty"@[0] == 'k' && "kty"@[1] == 't');
    reveal_strlit("key_ops");
    assert("key_ops"@.len() == 7 && "key_ops"@[0] == 'k' && "key_ops"@[1] == 'e');
    reveal_strlit("alg");
    assert("alg"@.len() == 3 && "alg"@[0] == 'a' && "alg"@[1] == 'l');
    reveal_strlit("k");
    assert("k"@.len() == 1 && "k"@[0] == 'k');
    reveal_strlit("ext");
    assert("ext"@.len() == 3 && "ext"@[0] == 'e' && "ext"@[1] == 'x');
    reveal_strlit("m.in_reply_to");
    assert("m.in_reply_to"@.len() == 13 && "m.in_reply_to"@[0] == 'm' && "m.in_reply_to"@[1] == '.' && "m.in_reply_to"@[10] == '_');
    reveal_strlit("rel_type");
    assert("rel_type"@.len() == 8 && "rel_type"@[0] == 'r' && "rel_type"@[1] == 'e');
    reveal_strlit("event_id");
    assert("event_id"@.len() == 8 && "event_id"@[0] == 'e' && "event_id"@[1] == 'v');
    reveal_strlit("type");
    assert("type"@.len() == 4 && "type"@[0] == 't' && "type"@[1] == 'y');
    reveal_strlit("origin_server_ts");
    assert("origin_server_ts"@.len() == 16 && "origin_server_ts"@[0] == 'o' && "origin_server_ts"@[1] == 'r' && "origin_server_ts"@[10] == 'v');
    reveal_strlit("count");
    assert("count"@.len() == 5 && "count"@[0] == 'c' && "count"@[1] == 'o');
    reveal_strlit("chunk");
    assert("chunk"@.len() == 5 && "chunk"@[0] == 'c' && "chunk"@[1] == 'h');
    reveal_strlit("next_batch");
    assert("next_batch"@.len() == 10 && "next_batch"@[0] == 'n' && "next_batch"@[1] == 'e');
    reveal_strlit("m.annotation");
    assert("m.annotation"@.len() == 12 && "m.annotation"@[0] == 'm' && "m.annotation"@[1] == '.' && "m.annotation"@[10] == 'o');
    reveal_strlit("content");
    assert("content"@.len() == 7 && "content"@[0] == 'c' && "content"@[1] == 'o');
    reveal_strlit("sender");
    assert("sender"@.len() == 6 && "sender"@[0] == 's' && "sender"@[1] == 'e');
    reveal_strlit("room_id");
    assert("room_id"@.len() == 7 && "room_id"@[0] == 'r' && "room_id"@[1] == 'o');
    reveal_strlit("unsigned");
    assert("unsigned"@.len() == 8 && "unsigned"@[0] == 'u' && "unsigned"@[1] == 'n');
    reveal_strlit("age");
    assert("age"@.len() == 3 && "age"@[0] == 'a' && "age"@[1] == 'g');
    reveal_strlit("transaction_id");
    assert("transaction_id"@.len() == 14 && "transaction_id"@[0] == 't' && "transaction_id"@[1] == 'r' && "transaction_id"@[10] == 'n');
    reveal_strlit("m.relations");
    assert("m.relations"@.len() == 11 && "m.relations"@[0] == 'm' && "m.relations"@[1] == '.' && "m.relations"@[10] == 's');
}

/// A kind of message that has a shape of its own.
#[derive(Clone, Copy, Debug, PartialEq, Eq, Structural)]
pub enum MessageKind {
    /// `m.audio`
    Audio,
    /// `m.emote`
    Emote,
    /// `m.file`
    File,
    /// `m.image`
    Image,
    /// `m.location`
    Location,
    /// `m.notice`
    Notice,
    /// `m.server_notice`
    ServerNotice,
    /// `m.text`
    Text,
    /// `m.video`
    Video,
}

impl MessageKind {
    /// The tag as it stands on the wire.
    pub open spec fn text(self) -> Seq<char> {
        match self {
            MessageKind::Audio => "m.audio"@,
            MessageKind::Emote => "m.emote"@,
            MessageKind::File => "m.file"@,
            MessageKind::Image => "m.image"@,
            MessageKind::Location => "m.location"@,
            MessageKind::Notice => "m.notice"@,
            MessageKind::ServerNotice => "m.server_notice"@,
            MessageKind::Text => "m.text"@,
            MessageKind::Video => "m.video"@,
        }
    }

    /// The kind that a tag names, if it names one.
    pub open spec fn of_text(tag: Seq<char>) -> Option<MessageKind> {
        if tag == "m.audio"@ {
            Some(MessageKind::Audio)
        } else if tag == "m.emote"@ {
            Some(MessageKind::Emote)
        } else if tag == "m.file"@ {
            Some(MessageKind::File)
        } else if tag == "m.image"@ {
            Some(MessageKind::Image)
        } else if tag == "m.location"@ {
            Some(MessageKind::Location)
        } else if tag == "m.notice"@ {
            Some(MessageKind::Notice)
        } else if tag == "m.server_notice"@ {
            Some(MessageKind::ServerNotice)
        } else if tag == "m.text"@ {
            Some(MessageKind::Text)
        } else if tag == "m.video"@ {
            Some(MessageKind::Video)
        } else {
            None
        }
    }

    /// The tag as it stands on the wire.
    pub fn name(self) -> (name: &'static str)
        ensures
            name@ == self.text(),
    {
        match self {
            MessageKind::Audio => "m.audio",
            MessageKind::Emote => "m.emote",
            MessageKind::File => "m.file",
            MessageKind::Image => "m.image",
            MessageKind::Location => "m.location",
            MessageKind::Notice => "m.notice",
            MessageKind::ServerNotice => "m.server_notice",
            MessageKind::Text => "m.text",
            MessageKind::Video => "m.video",
        }
    }

    /// Looks a tag up in the table of kinds.
    pub fn parse(tag: &str) -> (kind: Option<MessageKind>)
        ensures
            kind == MessageKind::of_text(tag@),
    {
        if str_eq(tag, "m.audio") {
            Some(MessageKind::Audio)
        } else if str_eq(tag, "m.emote") {
            Some(MessageKind::Emote)
        } else if str_eq(tag, "m.file") {
            Some(MessageKind::File)
        } else if str_eq(tag, "m.image") {
            Some(MessageKind::Image)
        } else if str_eq(tag, "m.location") {
            Some(MessageKind::Location)
        } else if str_eq(tag, "m.notice") {
            Some(MessageKind::Notice)
        } else if str_eq(tag, "m.server_notice") {
            Some(MessageKind::ServerNotice)
        } else if str_eq(tag, "m.text") {
            Some(MessageKind::Text)
        } else if str_eq(tag, "m.video") {
            Some(MessageKind::Video)
        } else {
            None
        }
    }
}

/// A tag names the kind whose tag it is, and no other word names a kind.
pub proof fn lemma_message_kind_of_text()
    ensures
        forall|kind: MessageKind| #[trigger] MessageKind::of_text(kind.text()) == Some(kind),
        forall|tag: Seq<char>|
            (#[trigger] MessageKind::of_text(tag)) matches Some(kind) ==> kind.text() == tag,
{
    reveal_strlit("m.audio");
    assert("m.audio"@.len() == 7 && "m.audio"@[2] == 'a');
    reveal_strlit("m.emote");
    assert("m.emote"@.len() == 7 && "m.emote"@[2] == 'e');
    reveal_strlit("m.file");
    assert("m.file"@.len() == 6 && "m.file"@[2] == 'f');
    reveal_strlit("m.image");
    assert("m.image"@.len() == 7 && "m.image"@[2] == 'i');
    reveal_strlit("m.location");
    assert("m.location"@.len() == 10 && "m.location"@[2] == 'l');
    reveal_strlit("m.notice");
    assert("m.notice"@.len() == 8 && "m.notice"@[2] == 'n');
    reveal_strlit("m.server_notice");
    assert("m.server_notice"@.len() == 15 && "m.server_notice"@[2] == 's');
    reveal_strlit("m.text");
    assert("m.text"@.len() == 6 && "m.text"@[2] == 't');
    reveal_strlit("m.video");
    assert("m.video"@.len() == 7 && "m.video"@[2] == 'v');
}

/// A kind of relation that is told by the member `rel_type`.
#[derive(Clone, Copy, Debug, PartialEq, Eq, Structural)]
pub enum RelationKind {
    /// `m.annotation`
    Annotation,
    /// `m.reference`
    Reference,
    /// `m.replace`
    Replacement,
}

impl RelationKind {
    /// The tag as it stands on the wire.
    pub open spec fn text(self) -> Seq<char> {
        match self {
            RelationKind::Annotation => "m.annotation"@,
            RelationKind::Reference => "m.reference"@,
            RelationKind::Replacement => "m.replace"@,
        }
    }

    /// The kind that a tag names, if it names one.
    pub open spec fn of_text(tag: Seq<char>) -> Option<RelationKind> {
        if tag == "m.annotation"@ {
            Some(RelationKind::Annotation)
        } else if tag == "m.reference"@ {
            Some(RelationKind::Reference)
        } else if tag == "m.replace"@ {
            Some(RelationKind::Replacement)
        } else {
            None
        }
    }

    /// The tag as it stands on the wire.
    pub fn name(self) -> (name: &'static str)
        ensures
            name@ == self.text(),
    {
        match self {
            RelationKind::Annotation => "m.annotation",
            RelationKind::Reference => "m.reference",
            RelationKind::Replacement => "m.replace",
        }
    }

    /// Looks a tag up in the table of kinds.
    pub fn parse(tag: &str) -> (kind: Option<RelationKind>)
        ensures
            kind == RelationKind::of_text(tag@),
    {
        if str_eq(tag, "m.annotation") {
            Some(RelationKind::Annotation)
        } else if str_eq(tag, "m.reference") {
            Some(RelationKind::Reference)
        } else if str_eq(tag, "m.replace") {
            Some(RelationKind::Replacement)
        } else {
            None
        }
    }
}

/// A tag names the kind whose tag it is, and no other word names a kind.
pub proof fn lemma_relation_kind_of_text()
    ensures
        forall|kind: RelationKind| #[trigger] RelationKind::of_text(kind.text()) == Some(kind),
        forall|tag: Seq<char>|
            (#[trigger] RelationKind::of_text(tag)) matches Some(kind) ==> kind.text() == tag,
{
    reveal_strlit("m.annotation");
    assert("m.annotation"@.len() == 12);
    reveal_strlit("m.reference");
    assert("m.reference"@.len() == 11);
    reveal_strlit("m.replace");
    assert("m.replace"@.len() == 9);
}

} // verus!
