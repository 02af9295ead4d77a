//! What a message says of the media that it points at: thumbnails, images and
//! encrypted files.

use crate::error::SchemaError;
use crate::json::{members_view, Json, JsonView, Members};
use crate::lists::{
    get_pairs, get_texts, keys_differ, lemma_first_pairs_keys_differ, lemma_pairs_round_trip,
    lemma_texts_round_trip, pairs_json,
    pairs_of, pairs_view, put_pairs, put_texts, texts_json, texts_of, texts_view,
};
use crate::names::Field;
use crate::object::{
    bool_of, find, find_present, get_bool, get_opt_text, get_opt_uint, get_text,
    lemma_member_with, member, object, opt_text_json, opt_text_of, opt_text_view, opt_uint_json,
    opt_uint_of, present, put, put_opt_text, put_opt_uint, put_text, text_of, with, with_opt,
};
use crate::safe_int::is_safe_uint;
use crate::views::{opt_result_view, opt_view, result_view};
use vstd::prelude::*;

verus! {

/// Whether an unsigned integer that may be absent is safe where it is there.
pub open spec fn opt_safe(value: Option<u64>) -> bool {
    value matches Some(v) ==> is_safe_uint(v as int)
}

/// Metadata about a thumbnail.
#[derive(Clone, Debug, PartialEq, Eq)]
pub struct ThumbnailInfo {
    /// The height of the thumbnail in pixels.
    pub height: Option<u64>,
    /// The width of the thumbnail in pixels.
    pub width: Option<u64>,
    /// The MIME type of the thumbnail, e.g. "image/png."
    pub mimetype: Option<String>,
    /// The file size of the thumbnail in bytes.
    pub size: Option<u64>,
}

/// The mathematical value of a [`ThumbnailInfo`].
pub ghost struct ThumbnailInfoView {
    pub height: Option<u64>,
    pub width: Option<u64>,
    pub mimetype: Option<Seq<char>>,
    pub size: Option<u64>,
}

impl View for ThumbnailInfo {
    type V = ThumbnailInfoView;

    open spec fn view(&self) -> ThumbnailInfoView {
        ThumbnailInfoView {
            height: self.height,
            width: self.width,
            mimetype: opt_text_view(self.mimetype),
            size: self.size,
        }
    }
}

impl ThumbnailInfoView {
    /// Every number is one that the wire can carry.
    pub open spec fn canonical(self) -> bool {
        &&& opt_safe(self.height)
        &&& opt_safe(self.width)
        &&& opt_safe(self.size)
    }

    /// The members of the record's object: what is absent is left out.
    pub open spec fn members(self) -> Members {
        let m = Seq::empty();
        let m = with_opt(m, Field::Height, opt_uint_json(self.height));
        let m = with_opt(m, Field::Width, opt_uint_json(self.width));
        let m = with_opt(m, Field::Mimetype, opt_text_json(self.mimetype));
        let m = with_opt(m, Field::Size, opt_uint_json(self.size));
        m
    }

    /// The JSON value of the record.
    pub open spec fn encode(self) -> JsonView {
        JsonView::Object(self.members())
    }

    /// The record that the members of an object hold, or what is wrong with
    /// the first member, in its order, that cannot be read.
    pub open spec fn decode_members(m: Members) -> Result<ThumbnailInfoView, SchemaError> {
        let height = opt_uint_of(m, Field::Height);
        let width = opt_uint_of(m, Field::Width);
        let mimetype = opt_text_of(m, Field::Mimetype);
        let size = opt_uint_of(m, Field::Size);
        if height is Err {
            Err(height->Err_0)
        } else if width is Err {
            Err(width->Err_0)
        } else if mimetype is Err {
            Err(mimetype->Err_0)
        } else if size is Err {
            Err(size->Err_0)
        } else {
            Ok(
                ThumbnailInfoView {
                    height: height->Ok_0,
                    width: width->Ok_0,
                    mimetype: mimetype->Ok_0,
                    size: size->Ok_0,
                },
            )
        }
    }

    /// The record that a JSON value holds.
    pub open spec fn decode(value: JsonView) -> Result<ThumbnailInfoView, SchemaError> {
        match value {
            JsonView::Object(m) => Self::decode_members(m),
            _ => Err(SchemaError::NotAnObject),
        }
    }

    /// The JSON value of a record that may be absent.
    pub open spec fn encode_opt(value: Option<ThumbnailInfoView>) -> Option<JsonView> {
        match value {
            Some(v) => Some(v.encode()),
            None => None,
        }
    }

    /// The record under a name, where the member may be absent.
    pub open spec fn decode_opt(m: Members, field: Field) -> Result<
        Option<ThumbnailInfoView>,
        SchemaError,
    > {
        match present(m, field) {
            Some(value) => match Self::decode(value) {
                Ok(v) => Ok(Some(v)),
                Err(e) => Err(e),
            },
            None => Ok(None),
        }
    }
}

impl ThumbnailInfo {
    /// Writes the record as a JSON object.
    pub fn encode(&self) -> (value: Json)
        ensures
            value@ == self@.encode(),
    {
        let mut members: Vec<(String, Json)> = Vec::new();
        put_opt_uint(&mut members, Field::Height, self.height);
        put_opt_uint(&mut members, Field::Width, self.width);
        put_opt_text(&mut members, Field::Mimetype, &self.mimetype);
        put_opt_uint(&mut members, Field::Size, self.size);
        object(members)
    }

    /// Reads the record from a JSON object.
    pub fn decode(value: &Json) -> (r: Result<ThumbnailInfo, SchemaError>)
        ensures
            result_view(r) == ThumbnailInfoView::decode(value@),
    {
        let members = match value {
            Json::Object(members) => members,
            _ => return Err(SchemaError::NotAnObject),
        };
        let height = match get_opt_uint(members, Field::Height) {
            Ok(v) => v,
            Err(e) => return Err(e),
        };
        let width = match get_opt_uint(members, Field::Width) {
            Ok(v) => v,
            Err(e) => return Err(e),
        };
        let mimetype = match get_opt_text(members, Field::Mimetype) {
            Ok(v) => v,
            Err(e) => return Err(e),
        };
        let size = match get_opt_uint(members, Field::Size) {
            Ok(v) => v,
            Err(e) => return Err(e),
        };
        Ok(ThumbnailInfo { height, width, mimetype, size })
    }

    /// Appends the record as a member, where there is one.
    pub fn put_opt(
        members: &mut Vec<(String, Json)>,
        field: Field,
        value: &Option<Box<ThumbnailInfo>>,
    )
        ensures
            members_view(final(members)@) == with_opt(
                members_view(old(members)@),
                field,
                ThumbnailInfoView::encode_opt(opt_view(*value)),
            ),
    {
        proof {
            reveal(with_opt);
        }
        match value {
            Some(v) => put(members, field, v.encode()),
            None => {},
        }
    }

    /// Reads the record under a name, where the member may be absent.
    pub fn get_opt(members: &Vec<(String, Json)>, field: Field) -> (r: Result<
        Option<Box<ThumbnailInfo>>,
        SchemaError,
    >)
        ensures
            opt_result_view(r) == ThumbnailInfoView::decode_opt(members_view(members@), field),
    {
        match find_present(members, field) {
            Some(value) => match ThumbnailInfo::decode(value) {
                Ok(v) => Ok(Some(Box::new(v))),
                Err(e) => Err(e),
            },
            None => Ok(None),
        }
    }
}

/// Reading a thumbnail's record that was written gives the record back.
pub proof fn lemma_thumbnail_info_round_trip(v: ThumbnailInfoView)
    requires
        v.canonical(),
    ensures
        ThumbnailInfoView::decode(v.encode()) == Ok::<ThumbnailInfoView, SchemaError>(v),
{
    lemma_member_with();
}

/// What is read from a thumbnail's record is canonical.
pub proof fn lemma_thumbnail_info_decoded(value: JsonView)
    ensures
        ThumbnailInfoView::decode(value) matches Ok(v) ==> v.canonical(),
{
}

/// A JSON web key, by which an encrypted file is read.
#[derive(Clone, Debug, PartialEq, Eq)]
pub struct JsonWebKey {
    /// The key type. Must be `oct`.
    pub kty: String,
    /// What the key may be used for. Must at least hold `encrypt` and
    /// `decrypt`.
    pub key_ops: Vec<String>,
    /// The algorithm. Must be `A256CTR`.
    pub alg: String,
    /// The key, encoded as url-safe unpadded base64.
    pub k: String,
    /// Whether the key may be extracted. Must be `true`.
    pub ext: bool,
}

/// The mathematical value of a [`JsonWebKey`].
pub ghost struct JsonWebKeyView {
    pub kty: Seq<char>,
    pub key_ops: Seq<Seq<char>>,
    pub alg: Seq<char>,
    pub k: Seq<char>,
    pub ext: bool,
}

impl View for JsonWebKey {
    type V = JsonWebKeyView;

    open spec fn view(&self) -> JsonWebKeyView {
        JsonWebKeyView {
            kty: self.kty@,
            key_ops: texts_view(self.key_ops@),
            alg: self.alg@,
            k: self.k@,
            ext: self.ext,
        }
    }
}

impl JsonWebKeyView {
    /// The members of the record's object: what is absent is left out.
    pub open spec fn members(self) -> Members {
        let m = Seq::empty();
        let m = with(m, Field::Kty, JsonView::String(self.kty));
        let m = with(m, Field::KeyOps, texts_json(self.key_ops));
        let m = with(m, Field::Alg, JsonView::String(self.alg));
        let m = with(m, Field::K, JsonView::String(self.k));
        let m = with(m, Field::Ext, JsonView::Bool(self.ext));
        m
    }

    /// The JSON value of the record.
    pub open spec fn encode(self) -> JsonView {
        JsonView::Object(self.members())
    }

    /// The record that the members of an object hold, or what is wrong with
    /// the first member, in its order, that cannot be read.
    pub open spec fn decode_members(m: Members) -> Result<JsonWebKeyView, SchemaError> {
        let kty = text_of(m, Field::Kty);
        let key_ops = texts_of(m, Field::KeyOps);
        let alg = text_of(m, Field::Alg);
        let k = text_of(m, Field::K);
        let ext = bool_of(m, Field::Ext);
        if kty is Err {
            Err(kty->Err_0)
        } else if key_ops is Err {
            Err(key_ops->Err_0)
        } else if alg is Err {
            Err(alg->Err_0)
        } else if k is Err {
            Err(k->Err_0)
        } else if ext is Err {
            Err(ext->Err_0)
        } else {
            Ok(
                JsonWebKeyView {
                    kty: kty->Ok_0,
                    key_ops: key_ops->Ok_0,
                    alg: alg->Ok_0,
                    k: k->Ok_0,
                    ext: ext->Ok_0,
                },
            )
        }
    }

    /// The record that a JSON value holds.
    pub open spec fn decode(value: JsonView) -> Result<JsonWebKeyView, SchemaError> {
        match value {
            JsonView::Object(m) => Self::decode_members(m),
            _ => Err(SchemaError::NotAnObject),
        }
    }

    /// The record under a name, where the member has to be there.
    pub open spec fn decode_at(m: Members, field: Field) -> Result<JsonWebKeyView, SchemaError> {
        match member(m, field) {
            Some(value) => Self::decode(value),
            None => Err(SchemaError::Missing(field)),
        }
    }
}

impl JsonWebKey {
    /// Writes the record as a JSON object.
    pub fn encode(&self) -> (value: Json)
        ensures
            value@ == self@.encode(),
    {
        let mut members: Vec<(String, Json)> = Vec::new();
        put_text(&mut members, Field::Kty, &self.kty);
        put_texts(&mut members, Field::KeyOps, &self.key_ops);
        put_text(&mut members, Field::Alg, &self.alg);
        put_text(&mut members, Field::K, &self.k);
        put(&mut members, Field::Ext, Json::Bool(self.ext));
        object(members)
    }

    /// Reads the record from a JSON object.
    pub fn decode(value: &Json) -> (r: Result<JsonWebKey, SchemaError>)
        ensures
            result_view(r) == JsonWebKeyView::decode(value@),
    {
        let members = match value {
            Json::Object(members) => members,
            _ => return Err(SchemaError::NotAnObject),
        };
        let kty = match get_text(members, Field::Kty) {
            Ok(v) => v,
            Err(e) => return Err(e),
        };
        let key_ops = match get_texts(members, Field::KeyOps) {
            Ok(v) => v,
            Err(e) => return Err(e),
        };
        let alg = match get_text(members, Field::Alg) {
            Ok(v) => v,
            Err(e) => return Err(e),
        };
        let k = match get_text(members, Field::K) {
            Ok(v) => v,
            Err(e) => return Err(e),
        };
        let ext = match get_bool(members, Field::Ext) {
            Ok(v) => v,
            Err(e) => return Err(e),
        };
        Ok(JsonWebKey { kty, key_ops, alg, k, ext })
    }

    /// Reads the record under a name, where the member has to be there.
    pub fn get(members: &Vec<(String, Json)>, field: Field) -> (r: Result<JsonWebKey, SchemaError>)
        ensures
            result_view(r) == JsonWebKeyView::decode_at(members_view(members@), field),
    {
        match find(members, field) {
            Some(value) => JsonWebKey::decode(value),
            None => Err(SchemaError::Missing(field)),
        }
    }
}

/// Reading a web key that was written gives the key back.
pub proof fn lemma_json_web_key_round_trip(v: JsonWebKeyView)
    ensures
        JsonWebKeyView::decode(v.encode()) == Ok::<JsonWebKeyView, SchemaError>(v),
{
    lemma_member_with();
    lemma_texts_round_trip(v.key_ops, Field::KeyOps);
}

/// A file sent to a room with end-to-end encryption enabled.
#[derive(Clone, Debug, PartialEq, Eq)]
pub struct EncryptedFile {
    /// The URL to the file.
    pub url: String,
    /// A JSON web key object.
    pub key: JsonWebKey,
    /// The 128-bit unique counter block used by AES-CTR, encoded as unpadded
    /// base64.
    pub iv: String,
    /// The hashes of the ciphertext, by algorithm, each encoded as unpadded
    /// base64. No algorithm is named twice.
    pub hashes: Vec<(String, String)>,
    /// Version of the encrypted attachments protocol. Must be `v2`.
    pub v: String,
}

/// The mathematical value of an [`EncryptedFile`].
pub ghost struct EncryptedFileView {
    pub url: Seq<char>,
    pub key: JsonWebKeyView,
    pub iv: Seq<char>,
    pub hashes: Seq<(Seq<char>, Seq<char>)>,
    pub v: Seq<char>,
}

impl View for EncryptedFile {
    type V = EncryptedFileView;

    open spec fn view(&self) -> EncryptedFileView {
        EncryptedFileView {
            url: self.url@,
            key: self.key@,
            iv: self.iv@,
            hashes: pairs_view(self.hashes@),
            v: self.v@,
        }
    }
}

impl EncryptedFileView {
    /// No hash algorithm is named twice.
    pub open spec fn canonical(self) -> bool {
        &&& keys_differ(self.hashes)
    }

    /// The members of the record's object: what is absent is left out.
    pub open spec fn members(self) -> Members {
        let m = Seq::empty();
        let m = with(m, Field::Url, JsonView::String(self.url));
        let m = with(m, Field::Key, self.key.encode());
        let m = with(m, Field::Iv, JsonView::String(self.iv));
        let m = with(m, Field::Hashes, pairs_json(self.hashes));
        let m = with(m, Field::Version, JsonView::String(self.v));
        m
    }

    /// The JSON value of the record.
    pub open spec fn encode(self) -> JsonView {
        JsonView::Object(self.members())
    }

    /// The record that the members of an object hold, or what is wrong with
    /// the first member, in its order, that cannot be read.
    pub open spec fn decode_members(m: Members) -> Result<EncryptedFileView, SchemaError> {
        let url = text_of(m, Field::Url);
        let key = JsonWebKeyView::decode_at(m, Field::Key);
        let iv = text_of(m, Field::Iv);
        let hashes = pairs_of(m, Field::Hashes);
        let v = text_of(m, Field::Version);
        if url is Err {
            Err(url->Err_0)
        } else if key is Err {
            Err(key->Err_0)
        } else if iv is Err {
            Err(iv->Err_0)
        } else if hashes is Err {
            Err(hashes->Err_0)
        } else if v is Err {
            Err(v->Err_0)
        } else {
            Ok(
                EncryptedFileView {
                    url: url->Ok_0,
                    key: key->Ok_0,
                    iv: iv->Ok_0,
                    hashes: hashes->Ok_0,
                    v: v->Ok_0,
                },
            )
        }
    }

    /// The record that a JSON value holds.
    pub open spec fn decode(value: JsonView) -> Result<EncryptedFileView, SchemaError> {
        match value {
            JsonView::Object(m) => Self::decode_members(m),
            _ => Err(SchemaError::NotAnObject),
        }
    }

    /// The JSON value of a record that may be absent.
    pub open spec fn encode_opt(value: Option<EncryptedFileView>) -> Option<JsonView> {
        match value {
            Some(v) => Some(v.encode()),
            None => None,
        }
    }

    /// The record under a name, where the member may be absent.
    pub open spec fn decode_opt(m: Members, field: Field) -> Result<
        Option<EncryptedFileView>,
        SchemaError,
    > {
        match present(m, field) {
            Some(value) => match Self::decode(value) {
                Ok(v) => Ok(Some(v)),
                Err(e) => Err(e),
            },
            None => Ok(None),
        }
    }
}

impl EncryptedFile {
    /// Writes the record as a JSON object.
    pub fn encode(&self) -> (value: Json)
        ensures
            value@ == self@.encode(),
    {
        let mut members: Vec<(String, Json)> = Vec::new();
        put_text(&mut members, Field::Url, &self.url);
        put(&mut members, Field::Key, self.key.encode());
        put_text(&mut members, Field::Iv, &self.iv);
        put_pairs(&mut members, Field::Hashes, &self.hashes);
        put_text(&mut members, Field::Version, &self.v);
        object(members)
    }

    /// Reads the record from a JSON object.
    pub fn decode(value: &Json) -> (r: Result<EncryptedFile, SchemaError>)
        ensures
            result_view(r) == EncryptedFileView::decode(value@),
    {
        let members = match value {
            Json::Object(members) => members,
            _ => return Err(SchemaError::NotAnObject),
        };
        let url = match get_text(members, Field::Url) {
            Ok(v) => v,
            Err(e) => return Err(e),
        };
        let key = match JsonWebKey::get(members, Field::Key) {
            Ok(v) => v,
            Err(e) => return Err(e),
        };
        let iv = match get_text(members, Field::Iv) {
            Ok(v) => v,
            Err(e) => return Err(e),
        };
        let hashes = match get_pairs(members, Field::Hashes) {
            Ok(v) => v,
            Err(e) => return Err(e),
        };
        let v = match get_text(members, Field::Version) {
            Ok(v) => v,
            Err(e) => return Err(e),
        };
        Ok(EncryptedFile { url, key, iv, hashes, v })
    }

    /// Appends the record as a member, where there is one.
    pub fn put_opt(
        members: &mut Vec<(String, Json)>,
        field: Field,
        value: &Option<Box<EncryptedFile>>,
    )
        ensures
            members_view(final(members)@) == with_opt(
                members_view(old(members)@),
                field,
                EncryptedFileView::encode_opt(opt_view(*value)),
            ),
    {
        proof {
            reveal(with_opt);
        }
        match value {
            Some(v) => put(members, field, v.encode()),
            None => {},
        }
    }

    /// Reads the record under a name, where the member may be absent.
    pub fn get_opt(members: &Vec<(String, Json)>, field: Field) -> (r: Result<
        Option<Box<EncryptedFile>>,
        SchemaError,
    >)
        ensures
            opt_result_view(r) == EncryptedFileView::decode_opt(members_view(members@), field),
    {
        match find_present(members, field) {
            Some(value) => match EncryptedFile::decode(value) {
                Ok(v) => Ok(Some(Box::new(v))),
                Err(e) => Err(e),
            },
            None => Ok(None),
        }
    }
}

/// Reading an encrypted file's record that was written gives the record back.
pub proof fn lemma_encrypted_file_round_trip(v: EncryptedFileView)
    requires
        v.canonical(),
    ensures
        EncryptedFileView::decode(v.encode()) == Ok::<EncryptedFileView, SchemaError>(v),
{
    lemma_member_with();
    lemma_json_web_key_round_trip(v.key);
    lemma_pairs_round_trip(v.hashes, Field::Hashes);
}

/// What is read from an encrypted file's record is canonical.
pub proof fn lemma_encrypted_file_decoded(value: JsonView)
    ensures
        EncryptedFileView::decode(value) matches Ok(v) ==> v.canonical(),
{
    match value {
        JsonView::Object(m) => {
            match member(m, Field::Hashes) {
                Some(JsonView::Object(pairs)) => lemma_first_pairs_keys_differ(pairs),
                _ => {},
            }
        },
        _ => {},
    }
}

/// Metadata about an image.
#[derive(Clone, Debug, PartialEq, Eq)]
pub struct ImageInfo {
    /// The height of the image in pixels.
    pub height: Option<u64>,
    /// The width of the image in pixels.
    pub width: Option<u64>,
    /// The MIME type of the image, e.g. "image/png."
    pub mimetype: Option<String>,
    /// The file size of the image in bytes.
    pub size: Option<u64>,
    /// Metadata about the image referred to in `thumbnail_url`.
    pub thumbnail_info: Option<Box<ThumbnailInfo>>,
    /// The URL to the thumbnail of the image. Only present if the thumbnail is
    /// unencrypted.
    pub thumbnail_url: Option<String>,
    /// Information on the encrypted thumbnail image. Only present if the
    /// thumbnail is encrypted.
    pub thumbnail_file: Option<Box<EncryptedFile>>,
}

/// The mathematical value of an [`ImageInfo`].
pub ghost struct ImageInfoView {
    pub height: Option<u64>,
    pub width: Option<u64>,
    pub mimetype: Option<Seq<char>>,
    pub size: Option<u64>,
    pub thumbnail_info: Option<ThumbnailInfoView>,
    pub thumbnail_url: Option<Seq<char>>,
    pub thumbnail_file: Option<EncryptedFileView>,
}

impl View for ImageInfo {
    type V = ImageInfoView;

    open spec fn view(&self) -> ImageInfoView {
        ImageInfoView {
            height: self.height,
            width: self.width,
            mimetype: opt_text_view(self.mimetype),
            size: self.size,
            thumbnail_info: opt_view(self.thumbnail_info),
            thumbnail_url: opt_text_view(self.thumbnail_url),
            thumbnail_file: opt_view(self.thumbnail_file),
        }
    }
}

impl ImageInfoView {
    /// Every number is one that the wire can carry, and what is nested is
    /// canonical too.
    pub open spec fn canonical(self) -> bool {
        &&& opt_safe(self.height)
        &&& opt_safe(self.width)
        &&& opt_safe(self.size)
        &&& (self.thumbnail_info matches Some(v) ==> v.canonical())
        &&& (self.thumbnail_file matches Some(v) ==> v.canonical())
    }

    /// The members of the record's object: what is absent is left out.
    pub open spec fn members(self) -> Members {
        let m = Seq::empty();
        let m = with_opt(m, Field::Height, opt_uint_json(self.height));
        let m = with_opt(m, Field::Width, opt_uint_json(self.width));
        let m = with_opt(m, Field::Mimetype, opt_text_json(self.mimetype));
        let m = with_opt(m, Field::Size, opt_uint_json(self.size));
        let m = with_opt(m, Field::ThumbnailInfo, ThumbnailInfoView::encode_opt(self.thumbnail_info));
        let m = with_opt(m, Field::ThumbnailUrl, opt_text_json(self.thumbnail_url));
        let m = with_opt(m, Field::ThumbnailFile, EncryptedFileView::encode_opt(self.thumbnail_file));
        m
    }

    /// The JSON value of the record.
    pub open spec fn encode(self) -> JsonView {
        JsonView::Object(self.members())
    }

    /// The record that the members of an object hold, or what is wrong with
    /// the first member, in its order, that cannot be read.
    pub open spec fn decode_members(m: Members) -> Result<ImageInfoView, SchemaError> {
        let height = opt_uint_of(m, Field::Height);
        let width = opt_uint_of(m, Field::Width);
        let mimetype = opt_text_of(m, Field::Mimetype);
        let size = opt_uint_of(m, Field::Size);
        let thumbnail_info = ThumbnailInfoView::decode_opt(m, Field::ThumbnailInfo);
        let thumbnail_url = opt_text_of(m, Field::ThumbnailUrl);
        let thumbnail_file = EncryptedFileView::decode_opt(m, Field::ThumbnailFile);
        if height is Err {
            Err(height->Err_0)
        } else if width is Err {
            Err(width->Err_0)
        } else if mimetype is Err {
            Err(mimetype->Err_0)
        } else if size is Err {
            Err(size->Err_0)
        } else if thumbnail_info is Err {
            Err(thumbnail_info->Err_0)
        } else if thumbnail_url is Err {
            Err(thumbnail_url->Err_0)
        } else if thumbnail_file is Err {
            Err(thumbnail_file->Err_0)
        } else {
            Ok(
                ImageInfoView {
                    height: height->Ok_0,
                    width: width->Ok_0,
                    mimetype: mimetype->Ok_0,
                    size: size->Ok_0,
                    thumbnail_info: thumbnail_info->Ok_0,
                    thumbnail_url: thumbnail_url->Ok_0,
                    thumbnail_file: thumbnail_file->Ok_0,
                },
            )
        }
    }

    /// The record that a JSON value holds.
    pub open spec fn decode(value: JsonView) -> Result<ImageInfoView, SchemaError> {
        match value {
            JsonView::Object(m) => Self::decode_members(m),
            _ => Err(SchemaError::NotAnObject),
        }
    }

    /// The JSON value of a record that may be absent.
    pub open spec fn encode_opt(value: Option<ImageInfoView>) -> Option<JsonView> {
        match value {
            Some(v) => Some(v.encode()),
            None => None,
        }
    }

    /// The record under a name, where the member may be absent.
    pub open spec fn decode_opt(m: Members, field: Field) -> Result<
        Option<ImageInfoView>,
        SchemaError,
    > {
        match present(m, field) {
            Some(value) => match Self::decode(value) {
                Ok(v) => Ok(Some(v)),
                Err(e) => Err(e),
            },
            None => Ok(None),
        }
    }
}

impl ImageInfo {
    /// Writes the record as a JSON object.
    pub fn encode(&self) -> (value: Json)
        ensures
            value@ == self@.encode(),
    {
        let mut members: Vec<(String, Json)> = Vec::new();
        put_opt_uint(&mut members, Field::Height, self.height);
        put_opt_uint(&mut members, Field::Width, self.width);
        put_opt_text(&mut members, Field::Mimetype, &self.mimetype);
        put_opt_uint(&mut members, Field::Size, self.size);
        ThumbnailInfo::put_opt(&mut members, Field::ThumbnailInfo, &self.thumbnail_info);
        put_opt_text(&mut members, Field::ThumbnailUrl, &self.thumbnail_url);
        EncryptedFile::put_opt(&mut members, Field::ThumbnailFile, &self.thumbnail_file);
        object(members)
    }

    /// Reads the record from a JSON object.
    pub fn decode(value: &Json) -> (r: Result<ImageInfo, SchemaError>)
        ensures
            result_view(r) == ImageInfoView::decode(value@),
    {
        let members = match value {
            Json::Object(members) => members,
            _ => return Err(SchemaError::NotAnObject),
        };
        let height = match get_opt_uint(members, Field::Height) {
            Ok(v) => v,
            Err(e) => return Err(e),
        };
        let width = match get_opt_uint(members, Field::Width) {
            Ok(v) => v,
            Err(e) => return Err(e),
        };
        let mimetype = match get_opt_text(members, Field::Mimetype) {
            Ok(v) => v,
            Err(e) => return Err(e),
        };
        let size = match get_opt_uint(members, Field::Size) {
            Ok(v) => v,
            Err(e) => return Err(e),
        };
        let thumbnail_info = match ThumbnailInfo::get_opt(members, Field::ThumbnailInfo) {
            Ok(v) => v,
            Err(e) => return Err(e),
        };
        let thumbnail_url = match get_opt_text(members, Field::ThumbnailUrl) {
            Ok(v) => v,
            Err(e) => return Err(e),
        };
        let thumbnail_file = match EncryptedFile::get_opt(members, Field::ThumbnailFile) {
            Ok(v) => v,
            Err(e) => return Err(e),
        };
        Ok(
            ImageInfo {
                height,
                width,
                mimetype,
                size,
                thumbnail_info,
                thumbnail_url,
                thumbnail_file,
            },
        )
    }

    /// Appends the record as a member, where there is one.
    pub fn put_opt(
        members: &mut Vec<(String, Json)>,
        field: Field,
        value: &Option<Box<ImageInfo>>,
    )
        ensures
            members_view(final(members)@) == with_opt(
                members_view(old(members)@),
                field,
                ImageInfoView::encode_opt(opt_view(*value)),
            ),
    {
        proof {
            reveal(with_opt);
        }
        match value {
            Some(v) => put(members, field, v.encode()),
            None => {},
        }
    }

    /// Reads the record under a name, where the member may be absent.
    pub fn get_opt(members: &Vec<(String, Json)>, field: Field) -> (r: Result<
        Option<Box<ImageInfo>>,
        SchemaError,
    >)
        ensures
            opt_result_view(r) == ImageInfoView::decode_opt(members_view(members@), field),
    {
        match find_present(members, field) {
            Some(value) => match ImageInfo::decode(value) {
                Ok(v) => Ok(Some(Box::new(v))),
                Err(e) => Err(e),
            },
            None => Ok(None),
        }
    }
}

/// Reading an image's record that was written gives the record back.
pub proof fn lemma_image_info_round_trip(v: ImageInfoView)
    requires
        v.canonical(),
    ensures
        ImageInfoView::decode(v.encode()) == Ok::<ImageInfoView, SchemaError>(v),
{
    let m = v.members();
    assert(opt_uint_of(m, Field::Height) == Ok::<Option<u64>, SchemaError>(v.height)) by {
        lemma_member_with();
    }
    assert(opt_uint_of(m, Field::Width) == Ok::<Option<u64>, SchemaError>(v.width)) by {
        lemma_member_with();
    }
    assert(opt_text_of(m, Field::Mimetype) == Ok::<Option<Seq<char>>, SchemaError>(v.mimetype)) by {
        lemma_member_with();
    }
    assert(opt_uint_of(m, Field::Size) == Ok::<Option<u64>, SchemaError>(v.size)) by {
        lemma_member_with();
    }
    assert(ThumbnailInfoView::decode_opt(m, Field::ThumbnailInfo) == Ok::<
        Option<ThumbnailInfoView>,
        SchemaError,
    >(v.thumbnail_info)) by {
        lemma_member_with();
        if v.thumbnail_info is Some {
            lemma_thumbnail_info_round_trip(v.thumbnail_info->Some_0);
        }
    }
    assert(opt_text_of(m, Field::ThumbnailUrl) == Ok::<
        Option<Seq<char>>,
        SchemaError,
    >(v.thumbnail_url)) by {
        lemma_member_with();
    }
    assert(EncryptedFileView::decode_opt(m, Field::ThumbnailFile) == Ok::<
        Option<EncryptedFileView>,
        SchemaError,
    >(v.thumbnail_file)) by {
        lemma_member_with();
        if v.thumbnail_file is Some {
            lemma_encrypted_file_round_trip(v.thumbnail_file->Some_0);
        }
    }
}

/// What is read from an image's record is canonical.
pub proof fn lemma_image_info_decoded(value: JsonView)
    ensures
        ImageInfoView::decode(value) matches Ok(v) ==> v.canonical(),
{
    match value {
        JsonView::Object(m) => {
            match present(m, Field::ThumbnailInfo) {
                Some(inner) => lemma_thumbnail_info_decoded(inner),
                None => {},
            }
            match present(m, Field::ThumbnailFile) {
                Some(inner) => lemma_encrypted_file_decoded(inner),
                None => {},
            }
        },
        _ => {},
    }
}

} // verus!
