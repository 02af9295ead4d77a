//! The payloads of the messages that carry media or a place, each with the
//! record that says what is known of its content.
//!
//! On the wire a payload lies flat in the object of its message, after the
//! member `msgtype` that tells its kind.

use crate::error::SchemaError;
use crate::format::{
    fold, folded, hoist, hoisted, opt_formatted_view, FormattedBody, FormattedBodyView,
};
use crate::json::{members_view, Json, JsonView, Members};
use crate::media::{
    lemma_encrypted_file_decoded, lemma_encrypted_file_round_trip, lemma_image_info_decoded,
    lemma_image_info_round_trip, lemma_thumbnail_info_decoded, lemma_thumbnail_info_round_trip,
    opt_safe, EncryptedFile, EncryptedFileView, ImageInfo, ImageInfoView, ThumbnailInfo,
    ThumbnailInfoView,
};
use crate::names::Field;
use crate::object::{
    find_present, get_opt_text, get_opt_uint, get_text, lemma_member_with, member, object,
    opt_text_json, opt_text_of, opt_text_view, opt_uint_json, opt_uint_of, present, put,
    put_opt_text, put_opt_uint, put_text, text_of, with, with_opt,
};
use crate::views::{opt_result_view, opt_view, result_view};
use vstd::prelude::*;

verus! {

/// Metadata about an audio clip.
#[derive(Clone, Debug, PartialEq, Eq)]
pub struct AudioInfo {
    /// The duration of the audio in milliseconds.
    pub duration: Option<u64>,
    /// The mimetype of the audio, e.g. "audio/aac."
    pub mimetype: Option<String>,
    /// The size of the audio clip in bytes.
    pub size: Option<u64>,
}

/// The mathematical value of an [`AudioInfo`].
pub ghost struct AudioInfoView {
    pub duration: Option<u64>,
    pub mimetype: Option<Seq<char>>,
    pub size: Option<u64>,
}

impl View for AudioInfo {
    type V = AudioInfoView;

    open spec fn view(&self) -> AudioInfoView {
        AudioInfoView {
            duration: self.duration,
            mimetype: opt_text_view(self.mimetype),
            size: self.size,
        }
    }
}

impl AudioInfoView {
    /// Every number is one that the wire can carry.
    pub open spec fn canonical(self) -> bool {
        &&& opt_safe(self.duration)
        &&& opt_safe(self.size)
    }

    /// The members of the record's object: what is absent is left out.
    pub open spec fn members(self) -> Members {
        let m = Seq::empty();
        let m = with_opt(m, Field::Duration, opt_uint_json(self.duration));
        let m = with_opt(m, Field::Mimetype, opt_text_json(self.mimetype));
        let m = with_opt(m, Field::Size, opt_uint_json(self.size));
        m
    }

    /// The JSON value of the record.
    pub open spec fn encode(self) -> JsonView {
        JsonView::Object(self.members())
    }

    /// The record that the members of an object hold, or what is wrong with
    /// the first member, in its order, that cannot be read.
    pub open spec fn decode_members(m: Members) -> Result<AudioInfoView, SchemaError> {
        let duration = opt_uint_of(m, Field::Duration);
        let mimetype = opt_text_of(m, Field::Mimetype);
        let size = opt_uint_of(m, Field::Size);
        if duration is Err {
            Err(duration->Err_0)
        } else if mimetype is Err {
            Err(mimetype->Err_0)
        } else if size is Err {
            Err(size->Err_0)
        } else {
            Ok(
                AudioInfoView {
                    duration: duration->Ok_0,
                    mimetype: mimetype->Ok_0,
                    size: size->Ok_0,
                },
            )
        }
    }

    /// The record that a JSON value holds.
    pub open spec fn decode(value: JsonView) -> Result<AudioInfoView, SchemaError> {
        match value {
            JsonView::Object(m) => Self::decode_members(m),
            _ => Err(SchemaError::NotAnObject),
        }
    }

    /// The JSON value of a record that may be absent.
    pub open spec fn encode_opt(value: Option<AudioInfoView>) -> Option<JsonView> {
        match value {
            Some(v) => Some(v.encode()),
            None => None,
        }
    }

    /// The record under a name, where the member may be absent.
    pub open spec fn decode_opt(m: Members, field: Field) -> Result<
        Option<AudioInfoView>,
        SchemaError,
    > {
        match present(m, field) {
            Some(value) => match Self::decode(value) {
                Ok(v) => Ok(Some(v)),
                Err(e) => Err(e),
            },
            None => Ok(None),
        }
    }
}

impl AudioInfo {
    /// Writes the record as a JSON object.
    pub fn encode(&self) -> (value: Json)
        ensures
            value@ == self@.encode(),
    {
        let mut members: Vec<(String, Json)> = Vec::new();
        put_opt_uint(&mut members, Field::Duration, self.duration);
        put_opt_text(&mut members, Field::Mimetype, &self.mimetype);
        put_opt_uint(&mut members, Field::Size, self.size);
        object(members)
    }

    /// Reads the record from a JSON object.
    pub fn decode(value: &Json) -> (r: Result<AudioInfo, SchemaError>)
        ensures
            result_view(r) == AudioInfoView::decode(value@),
    {
        let members = match value {
            Json::Object(members) => members,
            _ => return Err(SchemaError::NotAnObject),
        };
        let duration = match get_opt_uint(members, Field::Duration) {
            Ok(v) => v,
            Err(e) => return Err(e),
        };
        let mimetype = match get_opt_text(members, Field::Mimetype) {
            Ok(v) => v,
            Err(e) => return Err(e),
        };
        let size = match get_opt_uint(members, Field::Size) {
            Ok(v) => v,
            Err(e) => return Err(e),
        };
        Ok(AudioInfo { duration, mimetype, size })
    }

    /// Appends the record as a member, where there is one.
    pub fn put_opt(
        members: &mut Vec<(String, Json)>,
        field: Field,
        value: &Option<Box<AudioInfo>>,
    )
        ensures
            members_view(final(members)@) == with_opt(
                members_view(old(members)@),
                field,
                AudioInfoView::encode_opt(opt_view(*value)),
            ),
    {
        proof {
            reveal(with_opt);
        }
        match value {
            Some(v) => put(members, field, v.encode()),
            None => {},
        }
    }

    /// Reads the record under a name, where the member may be absent.
    pub fn get_opt(members: &Vec<(String, Json)>, field: Field) -> (r: Result<
        Option<Box<AudioInfo>>,
        SchemaError,
    >)
        ensures
            opt_result_view(r) == AudioInfoView::decode_opt(members_view(members@), field),
    {
        match find_present(members, field) {
            Some(value) => match AudioInfo::decode(value) {
                Ok(v) => Ok(Some(Box::new(v))),
                Err(e) => Err(e),
            },
            None => Ok(None),
        }
    }
}

/// Reading an audio clip's record that was written gives the record back.
pub proof fn lemma_audio_info_round_trip(v: AudioInfoView)
    requires
        v.canonical(),
    ensures
        AudioInfoView::decode(v.encode()) == Ok::<AudioInfoView, SchemaError>(v),
{
    lemma_member_with();
}

/// What is read from an audio clip's record is canonical.
pub proof fn lemma_audio_info_decoded(value: JsonView)
    ensures
        AudioInfoView::decode(value) matches Ok(v) ==> v.canonical(),
{
}

/// The payload for an audio message.
#[derive(Clone, Debug, PartialEq, Eq)]
pub struct AudioMessageEventContent {
    /// The textual representation of this message.
    pub body: String,
    /// Metadata for the audio clip referred to in `url`.
    pub info: Option<Box<AudioInfo>>,
    /// The URL to the audio clip. Required if the file is unencrypted.
    pub url: Option<String>,
    /// Required if the audio clip is encrypted. Information on the encrypted
    /// audio clip.
    pub file: Option<Box<EncryptedFile>>,
}

/// The mathematical value of an [`AudioMessageEventContent`].
pub ghost struct AudioMessageEventContentView {
    pub body: Seq<char>,
    pub info: Option<AudioInfoView>,
    pub url: Option<Seq<char>>,
    pub file: Option<EncryptedFileView>,
}

impl View for AudioMessageEventContent {
    type V = AudioMessageEventContentView;

    open spec fn view(&self) -> AudioMessageEventContentView {
        AudioMessageEventContentView {
            body: self.body@,
            info: opt_view(self.info),
            url: opt_text_view(self.url),
            file: opt_view(self.file),
        }
    }
}

impl AudioMessageEventContentView {
    /// What the content holds is canonical.
    pub open spec fn canonical(self) -> bool {
        &&& (self.info matches Some(v) ==> v.canonical())
        &&& (self.file matches Some(v) ==> v.canonical())
    }

    /// The given members with those of the content after them: what is absent
    /// is left out.
    pub open spec fn appended(self, m: Members) -> Members {
        let m = with(m, Field::Body, JsonView::String(self.body));
        let m = with_opt(m, Field::Info, AudioInfoView::encode_opt(self.info));
        let m = with_opt(m, Field::Url, opt_text_json(self.url));
        let m = with_opt(m, Field::File, EncryptedFileView::encode_opt(self.file));
        m
    }

    /// The members of the content's object.
    pub open spec fn members(self) -> Members {
        self.appended(Seq::empty())
    }

    /// The JSON value of the content.
    pub open spec fn encode(self) -> JsonView {
        JsonView::Object(self.members())
    }

    /// The content that the members of an object hold, or what is wrong with
    /// the first member, in its order, that cannot be read.
    pub open spec fn decode_members(m: Members) -> Result<
        AudioMessageEventContentView,
        SchemaError,
    > {
        let body = text_of(m, Field::Body);
        let info = AudioInfoView::decode_opt(m, Field::Info);
        let url = opt_text_of(m, Field::Url);
        let file = EncryptedFileView::decode_opt(m, Field::File);
        if body is Err {
            Err(body->Err_0)
        } else if info is Err {
            Err(info->Err_0)
        } else if url is Err {
            Err(url->Err_0)
        } else if file is Err {
            Err(file->Err_0)
        } else {
            Ok(
                AudioMessageEventContentView {
                    body: body->Ok_0,
                    info: info->Ok_0,
                    url: url->Ok_0,
                    file: file->Ok_0,
                },
            )
        }
    }

    /// The content that a JSON value holds.
    pub open spec fn decode(value: JsonView) -> Result<AudioMessageEventContentView, SchemaError> {
        match value {
            JsonView::Object(m) => Self::decode_members(m),
            _ => Err(SchemaError::NotAnObject),
        }
    }
}

impl AudioMessageEventContent {
    /// Appends the members of the content: what is absent is left out.
    pub fn append_to(&self, members: &mut Vec<(String, Json)>)
        ensures
            members_view(final(members)@) == self@.appended(members_view(old(members)@)),
    {
        put_text(members, Field::Body, &self.body);
        AudioInfo::put_opt(members, Field::Info, &self.info);
        put_opt_text(members, Field::Url, &self.url);
        EncryptedFile::put_opt(members, Field::File, &self.file);
    }

    /// Writes the content as a JSON object.
    pub fn encode(&self) -> (value: Json)
        ensures
            value@ == self@.encode(),
    {
        let mut members: Vec<(String, Json)> = Vec::new();
        self.append_to(&mut members);
        object(members)
    }

    /// Reads the content from the members of an object.
    pub fn decode_members(members: &Vec<(String, Json)>) -> (r: Result<
        AudioMessageEventContent,
        SchemaError,
    >)
        ensures
            result_view(r) == AudioMessageEventContentView::decode_members(members_view(members@)),
    {
        let body = match get_text(members, Field::Body) {
            Ok(v) => v,
            Err(e) => return Err(e),
        };
        let info = match AudioInfo::get_opt(members, Field::Info) {
            Ok(v) => v,
            Err(e) => return Err(e),
        };
        let url = match get_opt_text(members, Field::Url) {
            Ok(v) => v,
            Err(e) => return Err(e),
        };
        let file = match EncryptedFile::get_opt(members, Field::File) {
            Ok(v) => v,
            Err(e) => return Err(e),
        };
        Ok(AudioMessageEventContent { body, info, url, file })
    }

    /// Reads the content from a JSON object.
    pub fn decode(value: &Json) -> (r: Result<AudioMessageEventContent, SchemaError>)
        ensures
            result_view(r) == AudioMessageEventContentView::decode(value@),
    {
        match value {
            Json::Object(members) => AudioMessageEventContent::decode_members(members),
            _ => Err(SchemaError::NotAnObject),
        }
    }
}

/// Reading an audio message that was written gives it back: alone, and after
/// members that hold at most `msgtype`.
pub proof fn lemma_audio_message_event_content_round_trip(
    v: AudioMessageEventContentView,
    m: Members,
)
    requires
        v.canonical(),
        forall|key: Field| key != Field::MsgType ==> member(m, key) is None,
    ensures
        AudioMessageEventContentView::decode_members(v.appended(m)) == Ok::<
            AudioMessageEventContentView,
            SchemaError,
        >(v),
        AudioMessageEventContentView::decode(v.encode()) == Ok::<
            AudioMessageEventContentView,
            SchemaError,
        >(v),
{
    lemma_member_with();
    if v.info is Some {
        lemma_audio_info_round_trip(v.info->Some_0);
    }
    if v.file is Some {
        lemma_encrypted_file_round_trip(v.file->Some_0);
    }
}

/// What is read from an audio message is canonical.
pub proof fn lemma_audio_message_event_content_decoded(m: Members)
    ensures
        AudioMessageEventContentView::decode_members(m) matches Ok(v) ==> v.canonical(),
{
    match present(m, Field::Info) {
        Some(inner) => lemma_audio_info_decoded(inner),
        None => {},
    }
    match present(m, Field::File) {
        Some(inner) => lemma_encrypted_file_decoded(inner),
        None => {},
    }
}

/// The payload for an emote message.
#[derive(Clone, Debug, PartialEq, Eq)]
pub struct EmoteMessageEventContent {
    /// The emote action to perform.
    pub body: String,
    /// Formatted form of the message `body`.
    pub formatted: Option<FormattedBody>,
}

/// The mathematical value of an [`EmoteMessageEventContent`].
pub ghost struct EmoteMessageEventContentView {
    pub body: Seq<char>,
    pub formatted: Option<FormattedBodyView>,
}

impl View for EmoteMessageEventContent {
    type V = EmoteMessageEventContentView;

    open spec fn view(&self) -> EmoteMessageEventContentView {
        EmoteMessageEventContentView {
            body: self.body@,
            formatted: opt_formatted_view(self.formatted),
        }
    }
}

impl EmoteMessageEventContentView {
    /// The format, where there is one, is canonical.
    pub open spec fn canonical(self) -> bool {
        &&& (self.formatted matches Some(f) ==> f.format.canonical())
    }

    /// The given members with those of the content after them: what is absent
    /// is left out.
    pub open spec fn appended(self, m: Members) -> Members {
        let m = with(m, Field::Body, JsonView::String(self.body));
        let m = hoisted(m, self.formatted);
        m
    }

    /// The members of the content's object.
    pub open spec fn members(self) -> Members {
        self.appended(Seq::empty())
    }

    /// The JSON value of the content.
    pub open spec fn encode(self) -> JsonView {
        JsonView::Object(self.members())
    }

    /// The content that the members of an object hold, or what is wrong with
    /// the first member, in its order, that cannot be read.
    pub open spec fn decode_members(m: Members) -> Result<
        EmoteMessageEventContentView,
        SchemaError,
    > {
        let body = text_of(m, Field::Body);
        if body is Err {
            Err(body->Err_0)
        } else {
            Ok(
                EmoteMessageEventContentView {
                    body: body->Ok_0,
                    formatted: folded(m),
                },
            )
        }
    }

    /// The content that a JSON value holds.
    pub open spec fn decode(value: JsonView) -> Result<EmoteMessageEventContentView, SchemaError> {
        match value {
            JsonView::Object(m) => Self::decode_members(m),
            _ => Err(SchemaError::NotAnObject),
        }
    }
}

impl EmoteMessageEventContent {
    /// Appends the members of the content: what is absent is left out.
    pub fn append_to(&self, members: &mut Vec<(String, Json)>)
        ensures
            members_view(final(members)@) == self@.appended(members_view(old(members)@)),
    {
        put_text(members, Field::Body, &self.body);
        hoist(members, &self.formatted);
    }

    /// Writes the content as a JSON object.
    pub fn encode(&self) -> (value: Json)
        ensures
            value@ == self@.encode(),
    {
        let mut members: Vec<(String, Json)> = Vec::new();
        self.append_to(&mut members);
        object(members)
    }

    /// Reads the content from the members of an object.
    pub fn decode_members(members: &Vec<(String, Json)>) -> (r: Result<
        EmoteMessageEventContent,
        SchemaError,
    >)
        ensures
            result_view(r) == EmoteMessageEventContentView::decode_members(members_view(members@)),
    {
        let body = match get_text(members, Field::Body) {
            Ok(v) => v,
            Err(e) => return Err(e),
        };
        let formatted = fold(members);
        Ok(EmoteMessageEventContent { body, formatted })
    }

    /// Reads the content from a JSON object.
    pub fn decode(value: &Json) -> (r: Result<EmoteMessageEventContent, SchemaError>)
        ensures
            result_view(r) == EmoteMessageEventContentView::decode(value@),
    {
        match value {
            Json::Object(members) => EmoteMessageEventContent::decode_members(members),
            _ => Err(SchemaError::NotAnObject),
        }
    }
}

/// Reading an emote that was written gives it back: alone, and after
/// members that hold at most `msgtype`.
pub proof fn lemma_emote_message_event_content_round_trip(
    v: EmoteMessageEventContentView,
    m: Members,
)
    requires
        v.canonical(),
        forall|key: Field| key != Field::MsgType ==> member(m, key) is None,
    ensures
        EmoteMessageEventContentView::decode_members(v.appended(m)) == Ok::<
            EmoteMessageEventContentView,
            SchemaError,
        >(v),
        EmoteMessageEventContentView::decode(v.encode()) == Ok::<
            EmoteMessageEventContentView,
            SchemaError,
        >(v),
{
    lemma_member_with();
}

/// What is read from an emote is canonical.
pub proof fn lemma_emote_message_event_content_decoded(m: Members)
    ensures
        EmoteMessageEventContentView::decode_members(m) matches Ok(v) ==> v.canonical(),
{
}

/// Metadata about a file.
#[derive(Clone, Debug, PartialEq, Eq)]
pub struct FileInfo {
    /// The mimetype of the file, e.g. "application/msword."
    pub mimetype: Option<String>,
    /// The size of the file in bytes.
    pub size: Option<u64>,
    /// Metadata about the image referred to in `thumbnail_url`.
    pub thumbnail_info: Option<Box<ThumbnailInfo>>,
    /// The URL to the thumbnail of the file. Only present if the thumbnail is
    /// unencrypted.
    pub thumbnail_url: Option<String>,
    /// Information on the encrypted thumbnail file. Only present if the
    /// thumbnail is encrypted.
    pub thumbnail_file: Option<Box<EncryptedFile>>,
}

/// The mathematical value of a [`FileInfo`].
pub ghost struct FileInfoView {
    pub mimetype: Option<Seq<char>>,
    pub size: Option<u64>,
    pub thumbnail_info: Option<ThumbnailInfoView>,
    pub thumbnail_url: Option<Seq<char>>,
    pub thumbnail_file: Option<EncryptedFileView>,
}

impl View for FileInfo {
    type V = FileInfoView;

    open spec fn view(&self) -> FileInfoView {
        FileInfoView {
            mimetype: opt_text_view(self.mimetype),
            size: self.size,
            thumbnail_info: opt_view(self.thumbnail_info),
            thumbnail_url: opt_text_view(self.thumbnail_url),
            thumbnail_file: opt_view(self.thumbnail_file),
        }
    }
}

impl FileInfoView {
    /// Every number is one that the wire can carry, and what is nested is
    /// canonical too.
    pub open spec fn canonical(self) -> bool {
        &&& opt_safe(self.size)
        &&& (self.thumbnail_info matches Some(v) ==> v.canonical())
        &&& (self.thumbnail_file matches Some(v) ==> v.canonical())
    }

    /// The members of the record's object: what is absent is left out.
    pub open spec fn members(self) -> Members {
        let m = Seq::empty();
        let m = with_opt(m, Field::Mimetype, opt_text_json(self.mimetype));
        let m = with_opt(m, Field::Size, opt_uint_json(self.size));
        let m = with_opt(m, Field::ThumbnailInfo, ThumbnailInfoView::encode_opt(self.thumbnail_info));
        let m = with_opt(m, Field::ThumbnailUrl, opt_text_json(self.thumbnail_url));
        let m = with_opt(m, Field::ThumbnailFile, EncryptedFileView::encode_opt(self.thumbnail_file));
        m
    }

    /// The JSON value of the record.
    pub open spec fn encode(self) -> JsonView {
        JsonView::Object(self.members())
    }

    /// The record that the members of an object hold, or what is wrong with
    /// the first member, in its order, that cannot be read.
    pub open spec fn decode_members(m: Members) -> Result<FileInfoView, SchemaError> {
        let mimetype = opt_text_of(m, Field::Mimetype);
        let size = opt_uint_of(m, Field::Size);
        let thumbnail_info = ThumbnailInfoView::decode_opt(m, Field::ThumbnailInfo);
        let thumbnail_url = opt_text_of(m, Field::ThumbnailUrl);
        let thumbnail_file = EncryptedFileView::decode_opt(m, Field::ThumbnailFile);
        if mimetype is Err {
            Err(mimetype->Err_0)
        } else if size is Err {
            Err(size->Err_0)
        } else if thumbnail_info is Err {
            Err(thumbnail_info->Err_0)
        } else if thumbnail_url is Err {
            Err(thumbnail_url->Err_0)
        } else if thumbnail_file is Err {
            Err(thumbnail_file->Err_0)
        } else {
            Ok(
                FileInfoView {
                    mimetype: mimetype->Ok_0,
                    size: size->Ok_0,
                    thumbnail_info: thumbnail_info->Ok_0,
                    thumbnail_url: thumbnail_url->Ok_0,
                    thumbnail_file: thumbnail_file->Ok_0,
                },
            )
        }
    }

    /// The record that a JSON value holds.
    pub open spec fn decode(value: JsonView) -> Result<FileInfoView, SchemaError> {
        match value {
            JsonView::Object(m) => Self::decode_members(m),
            _ => Err(SchemaError::NotAnObject),
        }
    }

    /// The JSON value of a record that may be absent.
    pub open spec fn encode_opt(value: Option<FileInfoView>) -> Option<JsonView> {
        match value {
            Some(v) => Some(v.encode()),
            None => None,
        }
    }

    /// The record under a name, where the member may be absent.
    pub open spec fn decode_opt(m: Members, field: Field) -> Result<
        Option<FileInfoView>,
        SchemaError,
    > {
        match present(m, field) {
            Some(value) => match Self::decode(value) {
                Ok(v) => Ok(Some(v)),
                Err(e) => Err(e),
            },
            None => Ok(None),
        }
    }
}

impl FileInfo {
    /// Writes the record as a JSON object.
    pub fn encode(&self) -> (value: Json)
        ensures
            value@ == self@.encode(),
    {
        let mut members: Vec<(String, Json)> = Vec::new();
        put_opt_text(&mut members, Field::Mimetype, &self.mimetype);
        put_opt_uint(&mut members, Field::Size, self.size);
        ThumbnailInfo::put_opt(&mut members, Field::ThumbnailInfo, &self.thumbnail_info);
        put_opt_text(&mut members, Field::ThumbnailUrl, &self.thumbnail_url);
        EncryptedFile::put_opt(&mut members, Field::ThumbnailFile, &self.thumbnail_file);
        object(members)
    }

    /// Reads the record from a JSON object.
    pub fn decode(value: &Json) -> (r: Result<FileInfo, SchemaError>)
        ensures
            result_view(r) == FileInfoView::decode(value@),
    {
        let members = match value {
            Json::Object(members) => members,
            _ => return Err(SchemaError::NotAnObject),
        };
        let mimetype = match get_opt_text(members, Field::Mimetype) {
            Ok(v) => v,
            Err(e) => return Err(e),
        };
        let size = match get_opt_uint(members, Field::Size) {
            Ok(v) => v,
            Err(e) => return Err(e),
        };
        let thumbnail_info = match ThumbnailInfo::get_opt(members, Field::ThumbnailInfo) {
            Ok(v) => v,
            Err(e) => return Err(e),
        };
        let thumbnail_url = match get_opt_text(members, Field::ThumbnailUrl) {
            Ok(v) => v,
            Err(e) => return Err(e),
        };
        let thumbnail_file = match EncryptedFile::get_opt(members, Field::ThumbnailFile) {
            Ok(v) => v,
            Err(e) => return Err(e),
        };
        Ok(FileInfo { mimetype, size, thumbnail_info, thumbnail_url, thumbnail_file })
    }

    /// Appends the record as a member, where there is one.
    pub fn put_opt(
        members: &mut Vec<(String, Json)>,
        field: Field,
        value: &Option<Box<FileInfo>>,
    )
        ensures
            members_view(final(members)@) == with_opt(
                members_view(old(members)@),
                field,
                FileInfoView::encode_opt(opt_view(*value)),
            ),
    {
        proof {
            reveal(with_opt);
        }
        match value {
            Some(v) => put(members, field, v.encode()),
            None => {},
        }
    }

    /// Reads the record under a name, where the member may be absent.
    pub fn get_opt(members: &Vec<(String, Json)>, field: Field) -> (r: Result<
        Option<Box<FileInfo>>,
        SchemaError,
    >)
        ensures
            opt_result_view(r) == FileInfoView::decode_opt(members_view(members@), field),
    {
        match find_present(members, field) {
            Some(value) => match FileInfo::decode(value) {
                Ok(v) => Ok(Some(Box::new(v))),
                Err(e) => Err(e),
            },
            None => Ok(None),
        }
    }
}

/// Reading a file's record that was written gives the record back.
pub proof fn lemma_file_info_round_trip(v: FileInfoView)
    requires
        v.canonical(),
    ensures
        FileInfoView::decode(v.encode()) == Ok::<FileInfoView, SchemaError>(v),
{
    lemma_member_with();
    if v.thumbnail_info is Some {
        lemma_thumbnail_info_round_trip(v.thumbnail_info->Some_0);
    }
    if v.thumbnail_file is Some {
        lemma_encrypted_file_round_trip(v.thumbnail_file->Some_0);
    }
}

/// What is read from a file's record is canonical.
pub proof fn lemma_file_info_decoded(value: JsonView)
    ensures
        FileInfoView::decode(value) matches Ok(v) ==> v.canonical(),
{
    match value {
        JsonView::Object(m) => {
            match present(m, Field::ThumbnailInfo) {
                Some(inner) => lemma_thumbnail_info_decoded(inner),
                None => {},
            }
            match present(m, Field::ThumbnailFile) {
                Some(inner) => lemma_encrypted_file_decoded(inner),
                None => {},
            }
        },
        _ => {},
    }
}

/// The payload for a file message.
#[derive(Clone, Debug, PartialEq, Eq)]
pub struct FileMessageEventContent {
    /// A human-readable description of the file. This is recommended to be the
    /// filename that the file was uploaded under.
    pub body: String,
    /// The filename that the file was uploaded under.
    pub filename: Option<String>,
    /// Metadata about the file referred to in `url`.
    pub info: Option<Box<FileInfo>>,
    /// The URL to the file. Required if the file is unencrypted.
    pub url: Option<String>,
    /// Required if file is encrypted. Information on the encrypted file.
    pub file: Option<Box<EncryptedFile>>,
}

/// The mathematical value of a [`FileMessageEventContent`].
pub ghost struct FileMessageEventContentView {
    pub body: Seq<char>,
    pub filename: Option<Seq<char>>,
    pub info: Option<FileInfoView>,
    pub url: Option<Seq<char>>,
    pub file: Option<EncryptedFileView>,
}

impl View for FileMessageEventContent {
    type V = FileMessageEventContentView;

    open spec fn view(&self) -> FileMessageEventContentView {
        FileMessageEventContentView {
            body: self.body@,
            filename: opt_text_view(self.filename),
            info: opt_view(self.info),
            url: opt_text_view(self.url),
            file: opt_view(self.file),
        }
    }
}

impl FileMessageEventContentView {
    /// What the content holds is canonical.
    pub open spec fn canonical(self) -> bool {
        &&& (self.info matches Some(v) ==> v.canonical())
        &&& (self.file matches Some(v) ==> v.canonical())
    }

    /// The given members with those of the content after them: what is absent
    /// is left out.
    pub open spec fn appended(self, m: Members) -> Members {
        let m = with(m, Field::Body, JsonView::String(self.body));
        let m = with_opt(m, Field::Filename, opt_text_json(self.filename));
        let m = with_opt(m, Field::Info, FileInfoView::encode_opt(self.info));
        let m = with_opt(m, Field::Url, opt_text_json(self.url));
        let m = with_opt(m, Field::File, EncryptedFileView::encode_opt(self.file));
        m
    }

    /// The members of the content's object.
    pub open spec fn members(self) -> Members {
        self.appended(Seq::empty())
    }

    /// The JSON value of the content.
    pub open spec fn encode(self) -> JsonView {
        JsonView::Object(self.members())
    }

    /// The content that the members of an object hold, or what is wrong with
    /// the first member, in its order, that cannot be read.
    pub open spec fn decode_members(m: Members) -> Result<
        FileMessageEventContentView,
        SchemaError,
    > {
        let body = text_of(m, Field::Body);
        let filename = opt_text_of(m, Field::Filename);
        let info = FileInfoView::decode_opt(m, Field::Info);
        let url = opt_text_of(m, Field::Url);
        let file = EncryptedFileView::decode_opt(m, Field::File);
        if body is Err {
            Err(body->Err_0)
        } else if filename is Err {
            Err(filename->Err_0)
        } else if info is Err {
            Err(info->Err_0)
        } else if url is Err {
            Err(url->Err_0)
        } else if file is Err {
            Err(file->Err_0)
        } else {
            Ok(
                FileMessageEventContentView {
                    body: body->Ok_0,
                    filename: filename->Ok_0,
                    info: info->Ok_0,
                    url: url->Ok_0,
                    file: file->Ok_0,
                },
            )
        }
    }

    /// The content that a JSON value holds.
    pub open spec fn decode(value: JsonView) -> Result<FileMessageEventContentView, SchemaError> {
        match value {
            JsonView::Object(m) => Self::decode_members(m),
            _ => Err(SchemaError::NotAnObject),
        }
    }
}

impl FileMessageEventContent {
    /// Appends the members of the content: what is absent is left out.
    pub fn append_to(&self, members: &mut Vec<(String, Json)>)
        ensures
            members_view(final(members)@) == self@.appended(members_view(old(members)@)),
    {
        put_text(members, Field::Body, &self.body);
        put_opt_text(members, Field::Filename, &self.filename);
        FileInfo::put_opt(members, Field::Info, &self.info);
        put_opt_text(members, Field::Url, &self.url);
        EncryptedFile::put_opt(members, Field::File, &self.file);
    }

    /// Writes the content as a JSON object.
    pub fn encode(&self) -> (value: Json)
        ensures
            value@ == self@.encode(),
    {
        let mut members: Vec<(String, Json)> = Vec::new();
        self.append_to(&mut members);
        object(members)
    }

    /// Reads the content from the members of an object.
    pub fn decode_members(members: &Vec<(String, Json)>) -> (r: Result<
        FileMessageEventContent,
        SchemaError,
    >)
        ensures
            result_view(r) == FileMessageEventContentView::decode_members(members_view(members@)),
    {
        let body = match get_text(members, Field::Body) {
            Ok(v) => v,
            Err(e) => return Err(e),
        };
        let filename = match get_opt_text(members, Field::Filename) {
            Ok(v) => v,
            Err(e) => return Err(e),
        };
        let info = match FileInfo::get_opt(members, Field::Info) {
            Ok(v) => v,
            Err(e) => return Err(e),
        };
        let url = match get_opt_text(members, Field::Url) {
            Ok(v) => v,
            Err(e) => return Err(e),
        };
        let file = match EncryptedFile::get_opt(members, Field::File) {
            Ok(v) => v,
            Err(e) => return Err(e),
        };
        Ok(FileMessageEventContent { body, filename, info, url, file })
    }

    /// Reads the content from a JSON object.
    pub fn decode(value: &Json) -> (r: Result<FileMessageEventContent, SchemaError>)
        ensures
            result_view(r) == FileMessageEventContentView::decode(value@),
    {
        match value {
            Json::Object(members) => FileMessageEventContent::decode_members(members),
            _ => Err(SchemaError::NotAnObject),
        }
    }
}

/// Reading a file message that was written gives it back: alone, and after
/// members that hold at most `msgtype`.
pub proof fn lemma_file_message_event_content_round_trip(v: FileMessageEventContentView, m: Members)
    requires
        v.canonical(),
        forall|key: Field| key != Field::MsgType ==> member(m, key) is None,
    ensures
        FileMessageEventContentView::decode_members(v.appended(m)) == Ok::<
            FileMessageEventContentView,
            SchemaError,
        >(v),
        FileMessageEventContentView::decode(v.encode()) == Ok::<
            FileMessageEventContentView,
            SchemaError,
        >(v),
{
    lemma_member_with();
    if v.info is Some {
        lemma_file_info_round_trip(v.info->Some_0);
    }
    if v.file is Some {
        lemma_encrypted_file_round_trip(v.file->Some_0);
    }
}

/// What is read from a file message is canonical.
pub proof fn lemma_file_message_event_content_decoded(m: Members)
    ensures
        FileMessageEventContentView::decode_members(m) matches Ok(v) ==> v.canonical(),
{
    match present(m, Field::Info) {
        Some(inner) => lemma_file_info_decoded(inner),
        None => {},
    }
    match present(m, Field::File) {
        Some(inner) => lemma_encrypted_file_decoded(inner),
        None => {},
    }
}

/// The payload for an image message.
#[derive(Clone, Debug, PartialEq, Eq)]
pub struct ImageMessageEventContent {
    /// A textual representation of the image. This could be the alt text of the
    /// image, the filename of the image, or some kind of content description for
    /// accessibility e.g. "image attachment."
    pub body: String,
    /// Metadata about the image referred to in `url`.
    pub info: Option<Box<ImageInfo>>,
    /// The URL to the image. Required if the file is unencrypted.
    pub url: Option<String>,
    /// Required if image is encrypted. Information on the encrypted image.
    pub file: Option<Box<EncryptedFile>>,
}

/// The mathematical value of an [`ImageMessageEventContent`].
pub ghost struct ImageMessageEventContentView {
    pub body: Seq<char>,
    pub info: Option<ImageInfoView>,
    pub url: Option<Seq<char>>,
    pub file: Option<EncryptedFileView>,
}

impl View for ImageMessageEventContent {
    type V = ImageMessageEventContentView;

    open spec fn view(&self) -> ImageMessageEventContentView {
        ImageMessageEventContentView {
            body: self.body@,
            info: opt_view(self.info),
            url: opt_text_view(self.url),
            file: opt_view(self.file),
        }
    }
}

impl ImageMessageEventContentView {
    /// What the content holds is canonical.
    pub open spec fn canonical(self) -> bool {
        &&& (self.info matches Some(v) ==> v.canonical())
        &&& (self.file matches Some(v) ==> v.canonical())
    }

    /// The given members with those of the content after them: what is absent
    /// is left out.
    pub open spec fn appended(self, m: Members) -> Members {
        let m = with(m, Field::Body, JsonView::String(self.body));
        let m = with_opt(m, Field::Info, ImageInfoView::encode_opt(self.info));
        let m = with_opt(m, Field::Url, opt_text_json(self.url));
        let m = with_opt(m, Field::File, EncryptedFileView::encode_opt(self.file));
        m
    }

    /// The members of the content's object.
    pub open spec fn members(self) -> Members {
        self.appended(Seq::empty())
    }

    /// The JSON value of the content.
    pub open spec fn encode(self) -> JsonView {
        JsonView::Object(self.members())
    }

    /// The content that the members of an object hold, or what is wrong with
    /// the first member, in its order, that cannot be read.
    pub open spec fn decode_members(m: Members) -> Result<
        ImageMessageEventContentView,
        SchemaError,
    > {
        let body = text_of(m, Field::Body);
        let info = ImageInfoView::decode_opt(m, Field::Info);
        let url = opt_text_of(m, Field::Url);
        let file = EncryptedFileView::decode_opt(m, Field::File);
        if body is Err {
            Err(body->Err_0)
        } else if info is Err {
            Err(info->Err_0)
        } else if url is Err {
            Err(url->Err_0)
        } else if file is Err {
            Err(file->Err_0)
        } else {
            Ok(
                ImageMessageEventContentView {
                    body: body->Ok_0,
                    info: info->Ok_0,
                    url: url->Ok_0,
                    file: file->Ok_0,
                },
            )
        }
    }

    /// The content that a JSON value holds.
    pub open spec fn decode(value: JsonView) -> Result<ImageMessageEventContentView, SchemaError> {
        match value {
            JsonView::Object(m) => Self::decode_members(m),
            _ => Err(SchemaError::NotAnObject),
        }
    }
}

impl ImageMessageEventContent {
    /// Appends the members of the content: what is absent is left out.
    pub fn append_to(&self, members: &mut Vec<(String, Json)>)
        ensures
            members_view(final(members)@) == self@.appended(members_view(old(members)@)),
    {
        put_text(members, Field::Body, &self.body);
        ImageInfo::put_opt(members, Field::Info, &self.info);
        put_opt_text(members, Field::Url, &self.url);
        EncryptedFile::put_opt(members, Field::File, &self.file);
    }

    /// Writes the content as a JSON object.
    pub fn encode(&self) -> (value: Json)
        ensures
            value@ == self@.encode(),
    {
        let mut members: Vec<(String, Json)> = Vec::new();
        self.append_to(&mut members);
        object(members)
    }

    /// Reads the content from the members of an object.
    pub fn decode_members(members: &Vec<(String, Json)>) -> (r: Result<
        ImageMessageEventContent,
        SchemaError,
    >)
        ensures
            result_view(r) == ImageMessageEventContentView::decode_members(members_view(members@)),
    {
        let body = match get_text(members, Field::Body) {
            Ok(v) => v,
            Err(e) => return Err(e),
        };
        let info = match ImageInfo::get_opt(members, Field::Info) {
            Ok(v) => v,
            Err(e) => return Err(e),
        };
        let url = match get_opt_text(members, Field::Url) {
            Ok(v) => v,
            Err(e) => return Err(e),
        };
        let file = match EncryptedFile::get_opt(members, Field::File) {
            Ok(v) => v,
            Err(e) => return Err(e),
        };
        Ok(ImageMessageEventContent { body, info, url, file })
    }

    /// Reads the content from a JSON object.
    pub fn decode(value: &Json) -> (r: Result<ImageMessageEventContent, SchemaError>)
        ensures
            result_view(r) == ImageMessageEventContentView::decode(value@),
    {
        match value {
            Json::Object(members) => ImageMessageEventContent::decode_members(members),
            _ => Err(SchemaError::NotAnObject),
        }
    }
}

/// Reading an image message that was written gives it back: alone, and after
/// members that hold at most `msgtype`.
pub proof fn lemma_image_message_event_content_round_trip(
    v: ImageMessageEventContentView,
    m: Members,
)
    requires
        v.canonical(),
        forall|key: Field| key != Field::MsgType ==> member(m, key) is None,
    ensures
        ImageMessageEventContentView::decode_members(v.appended(m)) == Ok::<
            ImageMessageEventContentView,
            SchemaError,
        >(v),
        ImageMessageEventContentView::decode(v.encode()) == Ok::<
            ImageMessageEventContentView,
            SchemaError,
        >(v),
{
    lemma_member_with();
    if v.info is Some {
        lemma_image_info_round_trip(v.info->Some_0);
    }
    if v.file is Some {
        lemma_encrypted_file_round_trip(v.file->Some_0);
    }
}

/// What is read from an image message is canonical.
pub proof fn lemma_image_message_event_content_decoded(m: Members)
    ensures
        ImageMessageEventContentView::decode_members(m) matches Ok(v) ==> v.canonical(),
{
    match present(m, Field::Info) {
        Some(inner) => lemma_image_info_decoded(inner),
        None => {},
    }
    match present(m, Field::File) {
        Some(inner) => lemma_encrypted_file_decoded(inner),
        None => {},
    }
}

/// Thumbnail info associated with a location.
#[derive(Clone, Debug, PartialEq, Eq)]
pub struct LocationInfo {
    /// Metadata about the image referred to in `thumbnail_url` or
    /// `thumbnail_file`.
    pub thumbnail_info: Option<Box<ThumbnailInfo>>,
    /// The URL to a thumbnail of the location being represented. Only present
    /// if the thumbnail is unencrypted.
    pub thumbnail_url: Option<String>,
    /// Information on an encrypted thumbnail of the location being
    /// represented. Only present if the thumbnail is encrypted.
    pub thumbnail_file: Option<Box<EncryptedFile>>,
}

/// The mathematical value of a [`LocationInfo`].
pub ghost struct LocationInfoView {
    pub thumbnail_info: Option<ThumbnailInfoView>,
    pub thumbnail_url: Option<Seq<char>>,
    pub thumbnail_file: Option<EncryptedFileView>,
}

impl View for LocationInfo {
    type V = LocationInfoView;

    open spec fn view(&self) -> LocationInfoView {
        LocationInfoView {
            thumbnail_info: opt_view(self.thumbnail_info),
            thumbnail_url: opt_text_view(self.thumbnail_url),
            thumbnail_file: opt_view(self.thumbnail_file),
        }
    }
}

impl LocationInfoView {
    /// Every number is one that the wire can carry, and what is nested is
    /// canonical too.
    pub open spec fn canonical(self) -> bool {
        &&& (self.thumbnail_info matches Some(v) ==> v.canonical())
        &&& (self.thumbnail_file matches Some(v) ==> v.canonical())
    }

    /// The members of the record's object: what is absent is left out.
    pub open spec fn members(self) -> Members {
        let m = Seq::empty();
        let m = with_opt(m, Field::ThumbnailInfo, ThumbnailInfoView::encode_opt(self.thumbnail_info));
        let m = with_opt(m, Field::ThumbnailUrl, opt_text_json(self.thumbnail_url));
        let m = with_opt(m, Field::ThumbnailFile, EncryptedFileView::encode_opt(self.thumbnail_file));
        m
    }

    /// The JSON value of the record.
    pub open spec fn encode(self) -> JsonView {
        JsonView::Object(self.members())
    }

    /// The record that the members of an object hold, or what is wrong with
    /// the first member, in its order, that cannot be read.
    pub open spec fn decode_members(m: Members) -> Result<LocationInfoView, SchemaError> {
        let thumbnail_info = ThumbnailInfoView::decode_opt(m, Field::ThumbnailInfo);
        let thumbnail_url = opt_text_of(m, Field::ThumbnailUrl);
        let thumbnail_file = EncryptedFileView::decode_opt(m, Field::ThumbnailFile);
        if thumbnail_info is Err {
            Err(thumbnail_info->Err_0)
        } else if thumbnail_url is Err {
            Err(thumbnail_url->Err_0)
        } else if thumbnail_file is Err {
            Err(thumbnail_file->Err_0)
        } else {
            Ok(
                LocationInfoView {
                    thumbnail_info: thumbnail_info->Ok_0,
                    thumbnail_url: thumbnail_url->Ok_0,
                    thumbnail_file: thumbnail_file->Ok_0,
                },
            )
        }
    }

    /// The record that a JSON value holds.
    pub open spec fn decode(value: JsonView) -> Result<LocationInfoView, SchemaError> {
        match value {
            JsonView::Object(m) => Self::decode_members(m),
            _ => Err(SchemaError::NotAnObject),
        }
    }

    /// The JSON value of a record that may be absent.
    pub open spec fn encode_opt(value: Option<LocationInfoView>) -> Option<JsonView> {
        match value {
            Some(v) => Some(v.encode()),
            None => None,
        }
    }

    /// The record under a name, where the member may be absent.
    pub open spec fn decode_opt(m: Members, field: Field) -> Result<
        Option<LocationInfoView>,
        SchemaError,
    > {
        match present(m, field) {
            Some(value) => match Self::decode(value) {
                Ok(v) => Ok(Some(v)),
                Err(e) => Err(e),
            },
            None => Ok(None),
        }
    }
}

impl LocationInfo {
    /// Writes the record as a JSON object.
    pub fn encode(&self) -> (value: Json)
        ensures
            value@ == self@.encode(),
    {
        let mut members: Vec<(String, Json)> = Vec::new();
        ThumbnailInfo::put_opt(&mut members, Field::ThumbnailInfo, &self.thumbnail_info);
        put_opt_text(&mut members, Field::ThumbnailUrl, &self.thumbnail_url);
        EncryptedFile::put_opt(&mut members, Field::ThumbnailFile, &self.thumbnail_file);
        object(members)
    }

    /// Reads the record from a JSON object.
    pub fn decode(value: &Json) -> (r: Result<LocationInfo, SchemaError>)
        ensures
            result_view(r) == LocationInfoView::decode(value@),
    {
        let members = match value {
            Json::Object(members) => members,
            _ => return Err(SchemaError::NotAnObject),
        };
        let thumbnail_info = match ThumbnailInfo::get_opt(members, Field::ThumbnailInfo) {
            Ok(v) => v,
            Err(e) => return Err(e),
        };
        let thumbnail_url = match get_opt_text(members, Field::ThumbnailUrl) {
            Ok(v) => v,
            Err(e) => return Err(e),
        };
        let thumbnail_file = match EncryptedFile::get_opt(members, Field::ThumbnailFile) {
            Ok(v) => v,
            Err(e) => return Err(e),
        };
        Ok(LocationInfo { thumbnail_info, thumbnail_url, thumbnail_file })
    }

    /// Appends the record as a member, where there is one.
    pub fn put_opt(
        members: &mut Vec<(String, Json)>,
        field: Field,
        value: &Option<Box<LocationInfo>>,
    )
        ensures
            members_view(final(members)@) == with_opt(
                members_view(old(members)@),
                field,
                LocationInfoView::encode_opt(opt_view(*value)),
            ),
    {
        proof {
            reveal(with_opt);
        }
        match value {
            Some(v) => put(members, field, v.encode()),
            None => {},
        }
    }

    /// Reads the record under a name, where the member may be absent.
    pub fn get_opt(members: &Vec<(String, Json)>, field: Field) -> (r: Result<
        Option<Box<LocationInfo>>,
        SchemaError,
    >)
        ensures
            opt_result_view(r) == LocationInfoView::decode_opt(members_view(members@), field),
    {
        match find_present(members, field) {
            Some(value) => match LocationInfo::decode(value) {
                Ok(v) => Ok(Some(Box::new(v))),
                Err(e) => Err(e),
            },
            None => Ok(None),
        }
    }
}

/// Reading a location's record that was written gives the record back.
pub proof fn lemma_location_info_round_trip(v: LocationInfoView)
    requires
        v.canonical(),
    ensures
        LocationInfoView::decode(v.encode()) == Ok::<LocationInfoView, SchemaError>(v),
{
    lemma_member_with();
    if v.thumbnail_info is Some {
        lemma_thumbnail_info_round_trip(v.thumbnail_info->Some_0);
    }
    if v.thumbnail_file is Some {
        lemma_encrypted_file_round_trip(v.thumbnail_file->Some_0);
    }
}

/// What is read from a location's record is canonical.
pub proof fn lemma_location_info_decoded(value: JsonView)
    ensures
        LocationInfoView::decode(value) matches Ok(v) ==> v.canonical(),
{
    match value {
        JsonView::Object(m) => {
            match present(m, Field::ThumbnailInfo) {
                Some(inner) => lemma_thumbnail_info_decoded(inner),
                None => {},
            }
            match present(m, Field::ThumbnailFile) {
                Some(inner) => lemma_encrypted_file_decoded(inner),
                None => {},
            }
        },
        _ => {},
    }
}

/// The payload for a location message.
#[derive(Clone, Debug, PartialEq, Eq)]
pub struct LocationMessageEventContent {
    /// A description of the location e.g. "Big Ben, London, UK," or some kind of
    /// content description for accessibility, e.g. "location attachment."
    pub body: String,
    /// A geo URI representing the location.
    pub geo_uri: String,
    /// Info about the location being represented.
    pub info: Option<Box<LocationInfo>>,
}

/// The mathematical value of a [`LocationMessageEventContent`].
pub ghost struct LocationMessageEventContentView {
    pub body: Seq<char>,
    pub geo_uri: Seq<char>,
    pub info: Option<LocationInfoView>,
}

impl View for LocationMessageEventContent {
    type V = LocationMessageEventContentView;

    open spec fn view(&self) -> LocationMessageEventContentView {
        LocationMessageEventContentView {
            body: self.body@,
            geo_uri: self.geo_uri@,
            info: opt_view(self.info),
        }
    }
}

impl LocationMessageEventContentView {
    /// What the content holds is canonical.
    pub open spec fn canonical(self) -> bool {
        &&& (self.info matches Some(v) ==> v.canonical())
    }

    /// The given members with those of the content after them: what is absent
    /// is left out.
    pub open spec fn appended(self, m: Members) -> Members {
        let m = with(m, Field::Body, JsonView::String(self.body));
        let m = with(m, Field::GeoUri, JsonView::String(self.geo_uri));
        let m = with_opt(m, Field::Info, LocationInfoView::encode_opt(self.info));
        m
    }

    /// The members of the content's object.
    pub open spec fn members(self) -> Members {
        self.appended(Seq::empty())
    }

    /// The JSON value of the content.
    pub open spec fn encode(self) -> JsonView {
        JsonView::Object(self.members())
    }

    /// The content that the members of an object hold, or what is wrong with
    /// the first member, in its order, that cannot be read.
    pub open spec fn decode_members(m: Members) -> Result<
        LocationMessageEventContentView,
        SchemaError,
    > {
        let body = text_of(m, Field::Body);
        let geo_uri = text_of(m, Field::GeoUri);
        let info = LocationInfoView::decode_opt(m, Field::Info);
        if body is Err {
            Err(body->Err_0)
        } else if geo_uri is Err {
            Err(geo_uri->Err_0)
        } else if info is Err {
            Err(info->Err_0)
        } else {
            Ok(
                LocationMessageEventContentView {
                    body: body->Ok_0,
                    geo_uri: geo_uri->Ok_0,
                    info: info->Ok_0,
                },
            )
        }
    }

    /// The content that a JSON value holds.
    pub open spec fn decode(value: JsonView) -> Result<
        LocationMessageEventContentView,
        SchemaError,
    > {
        match value {
            JsonView::Object(m) => Self::decode_members(m),
            _ => Err(SchemaError::NotAnObject),
        }
    }
}

impl LocationMessageEventContent {
    /// Appends the members of the content: what is absent is left out.
    pub fn append_to(&self, members: &mut Vec<(String, Json)>)
        ensures
            members_view(final(members)@) == self@.appended(members_view(old(members)@)),
    {
        put_text(members, Field::Body, &self.body);
        put_text(members, Field::GeoUri, &self.geo_uri);
        LocationInfo::put_opt(members, Field::Info, &self.info);
    }

    /// Writes the content as a JSON object.
    pub fn encode(&self) -> (value: Json)
        ensures
            value@ == self@.encode(),
    {
        let mut members: Vec<(String, Json)> = Vec::new();
        self.append_to(&mut members);
        object(members)
    }

    /// Reads the content from the members of an object.
    pub fn decode_members(members: &Vec<(String, Json)>) -> (r: Result<
        LocationMessageEventContent,
        SchemaError,
    >)
        ensures
            result_view(r) == LocationMessageEventContentView::decode_members(
                members_view(members@),
            ),
    {
        let body = match get_text(members, Field::Body) {
            Ok(v) => v,
            Err(e) => return Err(e),
        };
        let geo_uri = match get_text(members, Field::GeoUri) {
            Ok(v) => v,
            Err(e) => return Err(e),
        };
        let info = match LocationInfo::get_opt(members, Field::Info) {
            Ok(v) => v,
            Err(e) => return Err(e),
        };
        Ok(LocationMessageEventContent { body, geo_uri, info })
    }

    /// Reads the content from a JSON object.
    pub fn decode(value: &Json) -> (r: Result<LocationMessageEventContent, SchemaError>)
        ensures
            result_view(r) == LocationMessageEventContentView::decode(value@),
    {
        match value {
            Json::Object(members) => LocationMessageEventContent::decode_members(members),
            _ => Err(SchemaError::NotAnObject),
        }
    }
}

/// Reading a location message that was written gives it back: alone, and after
/// members that hold at most `msgtype`.
pub proof fn lemma_location_message_event_content_round_trip(
    v: LocationMessageEventContentView,
    m: Members,
)
    requires
        v.canonical(),
        forall|key: Field| key != Field::MsgType ==> member(m, key) is None,
    ensures
        LocationMessageEventContentView::decode_members(v.appended(m)) == Ok::<
            LocationMessageEventContentView,
            SchemaError,
        >(v),
        LocationMessageEventContentView::decode(v.encode()) == Ok::<
            LocationMessageEventContentView,
            SchemaError,
        >(v),
{
    lemma_member_with();
    if v.info is Some {
        lemma_location_info_round_trip(v.info->Some_0);
    }
}

/// What is read from a location message is canonical.
pub proof fn lemma_location_message_event_content_decoded(m: Members)
    ensures
        LocationMessageEventContentView::decode_members(m) matches Ok(v) ==> v.canonical(),
{
    match present(m, Field::Info) {
        Some(inner) => lemma_location_info_decoded(inner),
        None => {},
    }
}

/// Metadata about a video.
#[derive(Clone, Debug, PartialEq, Eq)]
pub struct VideoInfo {
    /// The duration of the video in milliseconds.
    pub duration: Option<u64>,
    /// The height of the video in pixels.
    pub height: Option<u64>,
    /// The width of the video in pixels.
    pub width: Option<u64>,
    /// The mimetype of the video, e.g. "video/mp4."
    pub mimetype: Option<String>,
    /// The size of the video in bytes.
    pub size: Option<u64>,
    /// Metadata about an image.
    pub thumbnail_info: Option<Box<ThumbnailInfo>>,
    /// The URL to an image thumbnail of the video clip. Only present if the
    /// thumbnail is unencrypted.
    pub thumbnail_url: Option<String>,
    /// Information on the encrypted thumbnail file. Only present if the
    /// thumbnail is encrypted.
    pub thumbnail_file: Option<Box<EncryptedFile>>,
}

/// The mathematical value of a [`VideoInfo`].
pub ghost struct VideoInfoView {
    pub duration: Option<u64>,
    pub height: Option<u64>,
    pub width: Option<u64>,
    pub mimetype: Option<Seq<char>>,
    pub size: Option<u64>,
    pub thumbnail_info: Option<ThumbnailInfoView>,
    pub thumbnail_url: Option<Seq<char>>,
    pub thumbnail_file: Option<EncryptedFileView>,
}

impl View for VideoInfo {
    type V = VideoInfoView;

    open spec fn view(&self) -> VideoInfoView {
        VideoInfoView {
            duration: self.duration,
            height: self.height,
            width: self.width,
            mimetype: opt_text_view(self.mimetype),
            size: self.size,
            thumbnail_info: opt_view(self.thumbnail_info),
            thumbnail_url: opt_text_view(self.thumbnail_url),
            thumbnail_file: opt_view(self.thumbnail_file),
        }
    }
}

impl VideoInfoView {
    /// Every number is one that the wire can carry, and what is nested is
    /// canonical too.
    pub open spec fn canonical(self) -> bool {
        &&& opt_safe(self.duration)
        &&& opt_safe(self.height)
        &&& opt_safe(self.width)
        &&& opt_safe(self.size)
        &&& (self.thumbnail_info matches Some(v) ==> v.canonical())
        &&& (self.thumbnail_file matches Some(v) ==> v.canonical())
    }

    /// The members of the record's object: what is absent is left out.
    pub open spec fn members(self) -> Members {
        let m = Seq::empty();
        let m = with_opt(m, Field::Duration, opt_uint_json(self.duration));
        let m = with_opt(m, Field::Height, opt_uint_json(self.height));
        let m = with_opt(m, Field::Width, opt_uint_json(self.width));
        let m = with_opt(m, Field::Mimetype, opt_text_json(self.mimetype));
        let m = with_opt(m, Field::Size, opt_uint_json(self.size));
        let m = with_opt(m, Field::ThumbnailInfo, ThumbnailInfoView::encode_opt(self.thumbnail_info));
        let m = with_opt(m, Field::ThumbnailUrl, opt_text_json(self.thumbnail_url));
        let m = with_opt(m, Field::ThumbnailFile, EncryptedFileView::encode_opt(self.thumbnail_file));
        m
    }

    /// The JSON value of the record.
    pub open spec fn encode(self) -> JsonView {
        JsonView::Object(self.members())
    }

    /// The record that the members of an object hold, or what is wrong with
    /// the first member, in its order, that cannot be read.
    pub open spec fn decode_members(m: Members) -> Result<VideoInfoView, SchemaError> {
        let duration = opt_uint_of(m, Field::Duration);
        let height = opt_uint_of(m, Field::Height);
        let width = opt_uint_of(m, Field::Width);
        let mimetype = opt_text_of(m, Field::Mimetype);
        let size = opt_uint_of(m, Field::Size);
        let thumbnail_info = ThumbnailInfoView::decode_opt(m, Field::ThumbnailInfo);
        let thumbnail_url = opt_text_of(m, Field::ThumbnailUrl);
        let thumbnail_file = EncryptedFileView::decode_opt(m, Field::ThumbnailFile);
        if duration is Err {
            Err(duration->Err_0)
        } else if height is Err {
            Err(height->Err_0)
        } else if width is Err {
            Err(width->Err_0)
        } else if mimetype is Err {
            Err(mimetype->Err_0)
        } else if size is Err {
            Err(size->Err_0)
        } else if thumbnail_info is Err {
            Err(thumbnail_info->Err_0)
        } else if thumbnail_url is Err {
            Err(thumbnail_url->Err_0)
        } else if thumbnail_file is Err {
            Err(thumbnail_file->Err_0)
        } else {
            Ok(
                VideoInfoView {
                    duration: duration->Ok_0,
                    height: height->Ok_0,
                    width: width->Ok_0,
                    mimetype: mimetype->Ok_0,
                    size: size->Ok_0,
                    thumbnail_info: thumbnail_info->Ok_0,
                    thumbnail_url: thumbnail_url->Ok_0,
                    thumbnail_file: thumbnail_file->Ok_0,
                },
            )
        }
    }

    /// The record that a JSON value holds.
    pub open spec fn decode(value: JsonView) -> Result<VideoInfoView, SchemaError> {
        match value {
            JsonView::Object(m) => Self::decode_members(m),
            _ => Err(SchemaError::NotAnObject),
        }
    }

    /// The JSON value of a record that may be absent.
    pub open spec fn encode_opt(value: Option<VideoInfoView>) -> Option<JsonView> {
        match value {
            Some(v) => Some(v.encode()),
            None => None,
        }
    }

    /// The record under a name, where the member may be absent.
    pub open spec fn decode_opt(m: Members, field: Field) -> Result<
        Option<VideoInfoView>,
        SchemaError,
    > {
        match present(m, field) {
            Some(value) => match Self::decode(value) {
                Ok(v) => Ok(Some(v)),
                Err(e) => Err(e),
            },
            None => Ok(None),
        }
    }
}

impl VideoInfo {
    /// Writes the record as a JSON object.
    pub fn encode(&self) -> (value: Json)
        ensures
            value@ == self@.encode(),
    {
        let mut members: Vec<(String, Json)> = Vec::new();
        put_opt_uint(&mut members, Field::Duration, self.duration);
        put_opt_uint(&mut members, Field::Height, self.height);
        put_opt_uint(&mut members, Field::Width, self.width);
        put_opt_text(&mut members, Field::Mimetype, &self.mimetype);
        put_opt_uint(&mut members, Field::Size, self.size);
        ThumbnailInfo::put_opt(&mut members, Field::ThumbnailInfo, &self.thumbnail_info);
        put_opt_text(&mut members, Field::ThumbnailUrl, &self.thumbnail_url);
        EncryptedFile::put_opt(&mut members, Field::ThumbnailFile, &self.thumbnail_file);
        object(members)
    }

    /// Reads the record from a JSON object.
    pub fn decode(value: &Json) -> (r: Result<VideoInfo, SchemaError>)
        ensures
            result_view(r) == VideoInfoView::decode(value@),
    {
        let members = match value {
            Json::Object(members) => members,
            _ => return Err(SchemaError::NotAnObject),
        };
        let duration = match get_opt_uint(members, Field::Duration) {
            Ok(v) => v,
            Err(e) => return Err(e),
        };
        let height = match get_opt_uint(members, Field::Height) {
            Ok(v) => v,
            Err(e) => return Err(e),
        };
        let width = match get_opt_uint(members, Field::Width) {
            Ok(v) => v,
            Err(e) => return Err(e),
        };
        let mimetype = match get_opt_text(members, Field::Mimetype) {
            Ok(v) => v,
            Err(e) => return Err(e),
        };
        let size = match get_opt_uint(members, Field::Size) {
            Ok(v) => v,
            Err(e) => return Err(e),
        };
        let thumbnail_info = match ThumbnailInfo::get_opt(members, Field::ThumbnailInfo) {
            Ok(v) => v,
            Err(e) => return Err(e),
        };
        let thumbnail_url = match get_opt_text(members, Field::ThumbnailUrl) {
            Ok(v) => v,
            Err(e) => return Err(e),
        };
        let thumbnail_file = match EncryptedFile::get_opt(members, Field::ThumbnailFile) {
            Ok(v) => v,
            Err(e) => return Err(e),
        };
        Ok(
            VideoInfo {
                duration,
                height,
                width,
                mimetype,
                size,
                thumbnail_info,
                thumbnail_url,
                thumbnail_file,
            },
        )
    }

    /// Appends the record as a member, where there is one.
    pub fn put_opt(
        members: &mut Vec<(String, Json)>,
        field: Field,
        value: &Option<Box<VideoInfo>>,
    )
        ensures
            members_view(final(members)@) == with_opt(
                members_view(old(members)@),
                field,
                VideoInfoView::encode_opt(opt_view(*value)),
            ),
    {
        proof {
            reveal(with_opt);
        }
        match value {
            Some(v) => put(members, field, v.encode()),
            None => {},
        }
    }

    /// Reads the record under a name, where the member may be absent.
    pub fn get_opt(members: &Vec<(String, Json)>, field: Field) -> (r: Result<
        Option<Box<VideoInfo>>,
        SchemaError,
    >)
        ensures
            opt_result_view(r) == VideoInfoView::decode_opt(members_view(members@), field),
    {
        match find_present(members, field) {
            Some(value) => match VideoInfo::decode(value) {
                Ok(v) => Ok(Some(Box::new(v))),
                Err(e) => Err(e),
            },
            None => Ok(None),
        }
    }
}

/// Reading a video's record that was written gives the record back.
pub proof fn lemma_video_info_round_trip(v: VideoInfoView)
    requires
        v.canonical(),
    ensures
        VideoInfoView::decode(v.encode()) == Ok::<VideoInfoView, SchemaError>(v),
{
    let m = v.members();
    assert(opt_uint_of(m, Field::Duration) == Ok::<Option<u64>, SchemaError>(v.duration)) by {
        lemma_member_with();
    }
    assert(opt_uint_of(m, Field::Height) == Ok::<Option<u64>, SchemaError>(v.height)) by {
        lemma_member_with();
    }
    assert(opt_uint_of(m, Field::Width) == Ok::<Option<u64>, SchemaError>(v.width)) by {
        lemma_member_with();
    }
    assert(opt_text_of(m, Field::Mimetype) == Ok::<Option<Seq<char>>, SchemaError>(v.mimetype)) by {
        lemma_member_with();
    }
    assert(opt_uint_of(m, Field::Size) == Ok::<Option<u64>, SchemaError>(v.size)) by {
        lemma_member_with();
    }
    assert(ThumbnailInfoView::decode_opt(m, Field::ThumbnailInfo) == Ok::<
        Option<ThumbnailInfoView>,
        SchemaError,
    >(v.thumbnail_info)) by {
        lemma_member_with();
        if v.thumbnail_info is Some {
            lemma_thumbnail_info_round_trip(v.thumbnail_info->Some_0);
        }
    }
    assert(opt_text_of(m, Field::ThumbnailUrl) == Ok::<
        Option<Seq<char>>,
        SchemaError,
    >(v.thumbnail_url)) by {
        lemma_member_with();
    }
    assert(EncryptedFileView::decode_opt(m, Field::ThumbnailFile) == Ok::<
        Option<EncryptedFileView>,
        SchemaError,
    >(v.thumbnail_file)) by {
        lemma_member_with();
        if v.thumbnail_file is Some {
            lemma_encrypted_file_round_trip(v.thumbnail_file->Some_0);
        }
    }
}

/// What is read from a video's record is canonical.
pub proof fn lemma_video_info_decoded(value: JsonView)
    ensures
        VideoInfoView::decode(value) matches Ok(v) ==> v.canonical(),
{
    match value {
        JsonView::Object(m) => {
            match present(m, Field::ThumbnailInfo) {
                Some(inner) => lemma_thumbnail_info_decoded(inner),
                None => {},
            }
            match present(m, Field::ThumbnailFile) {
                Some(inner) => lemma_encrypted_file_decoded(inner),
                None => {},
            }
        },
        _ => {},
    }
}

/// The payload for a video message.
#[derive(Clone, Debug, PartialEq, Eq)]
pub struct VideoMessageEventContent {
    /// A description of the video, e.g. "Gangnam Style," or some kind of content
    /// description for accessibility, e.g. "video attachment."
    pub body: String,
    /// Metadata about the video clip referred to in `url`.
    pub info: Option<Box<VideoInfo>>,
    /// The URL to the video clip. Required if the file is unencrypted.
    pub url: Option<String>,
    /// Required if video clip is encrypted. Information on the encrypted video
    /// clip.
    pub file: Option<Box<EncryptedFile>>,
}

/// The mathematical value of a [`VideoMessageEventContent`].
pub ghost struct VideoMessageEventContentView {
    pub body: Seq<char>,
    pub info: Option<VideoInfoView>,
    pub url: Option<Seq<char>>,
    pub file: Option<EncryptedFileView>,
}

impl View for VideoMessageEventContent {
    type V = VideoMessageEventContentView;

    open spec fn view(&self) -> VideoMessageEventContentView {
        VideoMessageEventContentView {
            body: self.body@,
            info: opt_view(self.info),
            url: opt_text_view(self.url),
            file: opt_view(self.file),
        }
    }
}

impl VideoMessageEventContentView {
    /// What the content holds is canonical.
    pub open spec fn canonical(self) -> bool {
        &&& (self.info matches Some(v) ==> v.canonical())
        &&& (self.file matches Some(v) ==> v.canonical())
    }

    /// The given members with those of the content after them: what is absent
    /// is left out.
    pub open spec fn appended(self, m: Members) -> Members {
        let m = with(m, Field::Body, JsonView::String(self.body));
        let m = with_opt(m, Field::Info, VideoInfoView::encode_opt(self.info));
        let m = with_opt(m, Field::Url, opt_text_json(self.url));
        let m = with_opt(m, Field::File, EncryptedFileView::encode_opt(self.file));
        m
    }

    /// The members of the content's object.
    pub open spec fn members(self) -> Members {
        self.appended(Seq::empty())
    }

    /// The JSON value of the content.
    pub open spec fn encode(self) -> JsonView {
        JsonView::Object(self.members())
    }

    /// The content that the members of an object hold, or what is wrong with
    /// the first member, in its order, that cannot be read.
    pub open spec fn decode_members(m: Members) -> Result<
        VideoMessageEventContentView,
        SchemaError,
    > {
        let body = text_of(m, Field::Body);
        let info = VideoInfoView::decode_opt(m, Field::Info);
        let url = opt_text_of(m, Field::Url);
        let file = EncryptedFileView::decode_opt(m, Field::File);
        if body is Err {
            Err(body->Err_0)
        } else if info is Err {
            Err(info->Err_0)
        } else if url is Err {
            Err(url->Err_0)
        } else if file is Err {
            Err(file->Err_0)
        } else {
            Ok(
                VideoMessageEventContentView {
                    body: body->Ok_0,
                    info: info->Ok_0,
                    url: url->Ok_0,
                    file: file->Ok_0,
                },
            )
        }
    }

    /// The content that a JSON value holds.
    pub open spec fn decode(value: JsonView) -> Result<VideoMessageEventContentView, SchemaError> {
        match value {
            JsonView::Object(m) => Self::decode_members(m),
            _ => Err(SchemaError::NotAnObject),
        }
    }
}

impl VideoMessageEventContent {
    /// Appends the members of the content: what is absent is left out.
    pub fn append_to(&self, members: &mut Vec<(String, Json)>)
        ensures
            members_view(final(members)@) == self@.appended(members_view(old(members)@)),
    {
        put_text(members, Field::Body, &self.body);
        VideoInfo::put_opt(members, Field::Info, &self.info);
        put_opt_text(members, Field::Url, &self.url);
        EncryptedFile::put_opt(members, Field::File, &self.file);
    }

    /// Writes the content as a JSON object.
    pub fn encode(&self) -> (value: Json)
        ensures
            value@ == self@.encode(),
    {
        let mut members: Vec<(String, Json)> = Vec::new();
        self.append_to(&mut members);
        object(members)
    }

    /// Reads the content from the members of an object.
    pub fn decode_members(members: &Vec<(String, Json)>) -> (r: Result<
        VideoMessageEventContent,
        SchemaError,
    >)
        ensures
            result_view(r) == VideoMessageEventContentView::decode_members(members_view(members@)),
    {
        let body = match get_text(members, Field::Body) {
            Ok(v) => v,
            Err(e) => return Err(e),
        };
        let info = match VideoInfo::get_opt(members, Field::Info) {
            Ok(v) => v,
            Err(e) => return Err(e),
        };
        let url = match get_opt_text(members, Field::Url) {
            Ok(v) => v,
            Err(e) => return Err(e),
        };
        let file = match EncryptedFile::get_opt(members, Field::File) {
            Ok(v) => v,
            Err(e) => return Err(e),
        };
        Ok(VideoMessageEventContent { body, info, url, file })
    }

    /// Reads the content from a JSON object.
    pub fn decode(value: &Json) -> (r: Result<VideoMessageEventContent, SchemaError>)
        ensures
            result_view(r) == VideoMessageEventContentView::decode(value@),
    {
        match value {
            Json::Object(members) => VideoMessageEventContent::decode_members(members),
            _ => Err(SchemaError::NotAnObject),
        }
    }
}

/// Reading a video message that was written gives it back: alone, and after
/// members that hold at most `msgtype`.
pub proof fn lemma_video_message_event_content_round_trip(
    v: VideoMessageEventContentView,
    m: Members,
)
    requires
        v.canonical(),
        forall|key: Field| key != Field::MsgType ==> member(m, key) is None,
    ensures
        VideoMessageEventContentView::decode_members(v.appended(m)) == Ok::<
            VideoMessageEventContentView,
            SchemaError,
        >(v),
        VideoMessageEventContentView::decode(v.encode()) == Ok::<
            VideoMessageEventContentView,
            SchemaError,
        >(v),
{
    lemma_member_with();
    if v.info is Some {
        lemma_video_info_round_trip(v.info->Some_0);
    }
    if v.file is Some {
        lemma_encrypted_file_round_trip(v.file->Some_0);
    }
}

/// What is read from a video message is canonical.
pub proof fn lemma_video_message_event_content_decoded(m: Members)
    ensures
        VideoMessageEventContentView::decode_members(m) matches Ok(v) ==> v.canonical(),
{
    match present(m, Field::Info) {
        Some(inner) => lemma_video_info_decoded(inner),
        None => {},
    }
    match present(m, Field::File) {
        Some(inner) => lemma_encrypted_file_decoded(inner),
        None => {},
    }
}

} // verus!
