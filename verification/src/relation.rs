//! The relations to an event that a server has gathered: the reactions to
//! it, counted by key, one batch at a time.

use crate::error::SchemaError;
use crate::json::{items_view, lemma_items_view, members_view, str_eq, Json, JsonView, Members};
use crate::names::Field;
use crate::object::{
    find, find_present, get_opt_int, get_opt_text, get_text, get_uint, lemma_member_with, member,
    object, opt_int_json, opt_int_of, opt_text_json, opt_text_of, opt_text_view, present, put,
    put_opt_int, put_opt_text, put_text, put_uint, text_of, uint_json, uint_of, with, with_opt,
};
use crate::safe_int::{is_safe_int, is_safe_uint};
use crate::views::{opt_view, result_view};
use vstd::prelude::*;

verus! {

/// Whether a signed integer that may be absent is safe where it is there.
pub open spec fn opt_safe_int(value: Option<i64>) -> bool {
    value matches Some(v) ==> is_safe_int(v as int)
}

/// Summary of all reactions with the given key to an event.
#[derive(Clone, Debug, Default, PartialEq, Eq)]
pub struct BundledReaction {
    /// The key (emoji) used for reaction.
    pub key: String,
    /// Time of the bundled reaction being compiled on the server.
    pub origin_server_ts: Option<i64>,
    /// Number of times it was reacted with the key to the event.
    pub count: u64,
}

/// The mathematical value of a [`BundledReaction`].
pub ghost struct BundledReactionView {
    pub key: Seq<char>,
    pub origin_server_ts: Option<i64>,
    pub count: u64,
}

impl View for BundledReaction {
    type V = BundledReactionView;

    open spec fn view(&self) -> BundledReactionView {
        BundledReactionView {
            key: self.key@,
            origin_server_ts: self.origin_server_ts,
            count: self.count,
        }
    }
}

impl BundledReactionView {
    /// Both numbers are ones that the wire can carry.
    pub open spec fn canonical(self) -> bool {
        &&& opt_safe_int(self.origin_server_ts)
        &&& is_safe_uint(self.count as int)
    }

    /// The given members with those of the content after them: what is absent
    /// is left out.
    pub open spec fn appended(self, m: Members) -> Members {
        let m = with(m, Field::Key, JsonView::String(self.key));
        let m = with_opt(m, Field::OriginServerTs, opt_int_json(self.origin_server_ts));
        let m = with(m, Field::Count, uint_json(self.count));
        m
    }

    /// The members of the content's object.
    pub open spec fn members(self) -> Members {
        self.appended(Seq::empty())
    }

    /// The JSON value of the content.
    pub open spec fn encode(self) -> JsonView {
        JsonView::Object(self.members())
    }

    /// The content that the members of an object hold, or what is wrong with
    /// the first member, in its order, that cannot be read.
    pub open spec fn decode_members(m: Members) -> Result<BundledReactionView, SchemaError> {
        let key = text_of(m, Field::Key);
        let origin_server_ts = opt_int_of(m, Field::OriginServerTs);
        let count = uint_of(m, Field::Count);
        if key is Err {
            Err(key->Err_0)
        } else if origin_server_ts is Err {
            Err(origin_server_ts->Err_0)
        } else if count is Err {
            Err(count->Err_0)
        } else {
            Ok(
                BundledReactionView {
                    key: key->Ok_0,
                    origin_server_ts: origin_server_ts->Ok_0,
                    count: count->Ok_0,
                },
            )
        }
    }

    /// The content that a JSON value holds.
    pub open spec fn decode(value: JsonView) -> Result<BundledReactionView, SchemaError> {
        match value {
            JsonView::Object(m) => Self::decode_members(m),
            _ => Err(SchemaError::NotAnObject),
        }
    }
}

impl BundledReaction {
    /// Appends the members of the content: what is absent is left out.
    pub fn append_to(&self, members: &mut Vec<(String, Json)>)
        ensures
            members_view(final(members)@) == self@.appended(members_view(old(members)@)),
    {
        put_text(members, Field::Key, &self.key);
        put_opt_int(members, Field::OriginServerTs, self.origin_server_ts);
        put_uint(members, Field::Count, self.count);
    }

    /// Writes the content as a JSON object.
    pub fn encode(&self) -> (value: Json)
        ensures
            value@ == self@.encode(),
    {
        let mut members: Vec<(String, Json)> = Vec::new();
        self.append_to(&mut members);
        object(members)
    }

    /// Reads the content from the members of an object.
    pub fn decode_members(members: &Vec<(String, Json)>) -> (r: Result<
        BundledReaction,
        SchemaError,
    >)
        ensures
            result_view(r) == BundledReactionView::decode_members(members_view(members@)),
    {
        let key = match get_text(members, Field::Key) {
            Ok(v) => v,
            Err(e) => return Err(e),
        };
        let origin_server_ts = match get_opt_int(members, Field::OriginServerTs) {
            Ok(v) => v,
            Err(e) => return Err(e),
        };
        let count = match get_uint(members, Field::Count) {
            Ok(v) => v,
            Err(e) => return Err(e),
        };
        Ok(BundledReaction { key, origin_server_ts, count })
    }

    /// Reads the content from a JSON object.
    pub fn decode(value: &Json) -> (r: Result<BundledReaction, SchemaError>)
        ensures
            result_view(r) == BundledReactionView::decode(value@),
    {
        match value {
            Json::Object(members) => BundledReaction::decode_members(members),
            _ => Err(SchemaError::NotAnObject),
        }
    }
}

/// Reading a reaction's summary that was written gives it back: alone, and after
/// members that hold at most `type`.
pub proof fn lemma_bundled_reaction_round_trip(v: BundledReactionView, m: Members)
    requires
        v.canonical(),
        forall|key: Field| key != Field::Type ==> member(m, key) is None,
    ensures
        BundledReactionView::decode_members(v.appended(m)) == Ok::<
            BundledReactionView,
            SchemaError,
        >(v),
        BundledReactionView::decode(v.encode()) == Ok::<BundledReactionView, SchemaError>(v),
{
    lemma_member_with();
}

/// What is read from a reaction's summary is canonical.
pub proof fn lemma_bundled_reaction_decoded(m: Members)
    ensures
        BundledReactionView::decode_members(m) matches Ok(v) ==> v.canonical(),
{
}

/// Type of bundled annotation.
#[derive(Clone, Debug, PartialEq, Eq)]
pub enum BundledAnnotation {
    /// An emoji reaction and its count.
    Reaction(BundledReaction),
}

/// The mathematical value of a [`BundledAnnotation`].
pub ghost enum BundledAnnotationView {
    Reaction(BundledReactionView),
}

impl View for BundledAnnotation {
    type V = BundledAnnotationView;

    open spec fn view(&self) -> BundledAnnotationView {
        match self {
            BundledAnnotation::Reaction(r) => BundledAnnotationView::Reaction(r@),
        }
    }
}

/// The word that tells a reaction among the bundled annotations.
pub open spec fn reaction_text() -> Seq<char> {
    "m.reaction"@
}

impl BundledAnnotationView {
    /// What the annotation holds is canonical.
    pub open spec fn canonical(self) -> bool {
        match self {
            BundledAnnotationView::Reaction(r) => r.canonical(),
        }
    }

    /// The JSON value of the annotation: `type`, then the members of its kind.
    pub open spec fn encode(self) -> JsonView {
        match self {
            BundledAnnotationView::Reaction(r) => JsonView::Object(
                r.appended(with(Seq::empty(), Field::Type, JsonView::String(reaction_text()))),
            ),
        }
    }

    /// The annotation that a JSON value holds. It has to be an object with a
    /// known kind as text under `type`.
    pub open spec fn decode(value: JsonView) -> Result<BundledAnnotationView, SchemaError> {
        match value {
            JsonView::Object(m) => match text_of(m, Field::Type) {
                Ok(kind) => if kind == reaction_text() {
                    match BundledReactionView::decode_members(m) {
                        Ok(r) => Ok(BundledAnnotationView::Reaction(r)),
                        Err(e) => Err(e),
                    }
                } else {
                    Err(SchemaError::UnknownKind(Field::Type))
                },
                Err(e) => Err(e),
            },
            _ => Err(SchemaError::NotAnObject),
        }
    }
}

impl BundledAnnotation {
    /// Writes the annotation as a JSON object.
    pub fn encode(&self) -> (value: Json)
        ensures
            value@ == self@.encode(),
    {
        match self {
            BundledAnnotation::Reaction(r) => {
                let mut members: Vec<(String, Json)> = Vec::new();
                let kind = "m.reaction".to_owned();
                put_text(&mut members, Field::Type, &kind);
                r.append_to(&mut members);
                object(members)
            },
        }
    }

    /// Reads the annotation from a JSON object.
    pub fn decode(value: &Json) -> (r: Result<BundledAnnotation, SchemaError>)
        ensures
            result_view(r) == BundledAnnotationView::decode(value@),
    {
        let members = match value {
            Json::Object(members) => members,
            _ => return Err(SchemaError::NotAnObject),
        };
        let kind = match get_text(members, Field::Type) {
            Ok(kind) => kind,
            Err(e) => return Err(e),
        };
        if str_eq(kind.as_str(), "m.reaction") {
            match BundledReaction::decode_members(members) {
                Ok(r) => Ok(BundledAnnotation::Reaction(r)),
                Err(e) => Err(e),
            }
        } else {
            Err(SchemaError::UnknownKind(Field::Type))
        }
    }
}

/// The values of a sequence of annotations.
pub open spec fn annotations_view(chunk: Seq<BundledAnnotation>) -> Seq<BundledAnnotationView> {
    Seq::new(chunk.len(), |i: int| chunk[i]@)
}

/// The JSON values of a sequence of annotations.
pub open spec fn encode_all(chunk: Seq<BundledAnnotationView>) -> Seq<JsonView> {
    Seq::new(chunk.len(), |i: int| chunk[i].encode())
}

/// The annotations that a sequence of JSON values holds, or what is wrong
/// with the first value that holds none.
pub open spec fn decode_all(items: Seq<JsonView>) -> Result<
    Seq<BundledAnnotationView>,
    SchemaError,
>
    decreases items.len(),
{
    if items.len() == 0 {
        Ok(Seq::empty())
    } else {
        match decode_all(items.drop_last()) {
            Ok(first) => match BundledAnnotationView::decode(items.last()) {
                Ok(v) => Ok(first.push(v)),
                Err(e) => Err(e),
            },
            Err(e) => Err(e),
        }
    }
}

/// What the first `i + 1` values hold, from what the first `i` hold.
pub proof fn lemma_decode_all_step(items: Seq<JsonView>, i: int)
    requires
        0 <= i < items.len(),
    ensures
        decode_all(items.take(i + 1)) == (match decode_all(items.take(i)) {
            Ok(first) => match BundledAnnotationView::decode(items[i]) {
                Ok(v) => Ok(first.push(v)),
                Err(e) => Err(e),
            },
            Err(e) => Err::<Seq<BundledAnnotationView>, SchemaError>(e),
        }),
{
    assert(items.take(i + 1).drop_last() =~= items.take(i));
    assert(items.take(i + 1).last() == items[i]);
}

/// Where the first values cannot be read, the whole sequence cannot, with the
/// same error.
pub proof fn lemma_decode_all_error(items: Seq<JsonView>, i: int)
    requires
        0 <= i <= items.len(),
        decode_all(items.take(i)) is Err,
    ensures
        decode_all(items) == decode_all(items.take(i)),
    decreases items.len() - i,
{
    if i == items.len() {
        assert(items.take(i) =~= items);
    } else {
        lemma_decode_all_step(items, i);
        lemma_decode_all_error(items, i + 1);
    }
}

/// The first batch of annotations with a token for loading more.
#[derive(Clone, Debug, Default, PartialEq, Eq)]
pub struct AnnotationChunk {
    /// The first batch of bundled annotations.
    pub chunk: Vec<BundledAnnotation>,
    /// Token to receive the next annotation batch.
    pub next_batch: Option<String>,
}

/// The mathematical value of an [`AnnotationChunk`].
pub ghost struct AnnotationChunkView {
    pub chunk: Seq<BundledAnnotationView>,
    pub next_batch: Option<Seq<char>>,
}

impl View for AnnotationChunk {
    type V = AnnotationChunkView;

    open spec fn view(&self) -> AnnotationChunkView {
        AnnotationChunkView {
            chunk: annotations_view(self.chunk@),
            next_batch: opt_text_view(self.next_batch),
        }
    }
}

impl AnnotationChunkView {
    /// Every annotation of the batch is canonical.
    pub open spec fn canonical(self) -> bool {
        forall|i: int| 0 <= i < self.chunk.len() ==> (#[trigger] self.chunk[i]).canonical()
    }

    /// The members of the batch's object.
    pub open spec fn members(self) -> Members {
        let m = Seq::empty();
        let m = with(m, Field::Chunk, JsonView::Array(encode_all(self.chunk)));
        let m = with_opt(m, Field::NextBatch, opt_text_json(self.next_batch));
        m
    }

    /// The JSON value of the batch.
    pub open spec fn encode(self) -> JsonView {
        JsonView::Object(self.members())
    }

    /// The annotations under `chunk`: the member has to be there and hold an
    /// array of annotations.
    pub open spec fn chunk_of(m: Members) -> Result<Seq<BundledAnnotationView>, SchemaError> {
        match member(m, Field::Chunk) {
            Some(JsonView::Array(items)) => decode_all(items),
            Some(_) => Err(SchemaError::WrongType(Field::Chunk)),
            None => Err(SchemaError::Missing(Field::Chunk)),
        }
    }

    /// The batch that a JSON value holds.
    pub open spec fn decode(value: JsonView) -> Result<AnnotationChunkView, SchemaError> {
        match value {
            JsonView::Object(m) => {
                let chunk = Self::chunk_of(m);
                let next_batch = opt_text_of(m, Field::NextBatch);
                if chunk is Err {
                    Err(chunk->Err_0)
                } else if next_batch is Err {
                    Err(next_batch->Err_0)
                } else {
                    Ok(AnnotationChunkView { chunk: chunk->Ok_0, next_batch: next_batch->Ok_0 })
                }
            },
            _ => Err(SchemaError::NotAnObject),
        }
    }

    /// The JSON value of a batch that may be absent.
    pub open spec fn encode_opt(value: Option<AnnotationChunkView>) -> Option<JsonView> {
        match value {
            Some(v) => Some(v.encode()),
            None => None,
        }
    }

    /// The batch under a name, where the member may be absent.
    pub open spec fn decode_opt(m: Members, field: Field) -> Result<
        Option<AnnotationChunkView>,
        SchemaError,
    > {
        match present(m, field) {
            Some(value) => match Self::decode(value) {
                Ok(v) => Ok(Some(v)),
                Err(e) => Err(e),
            },
            None => Ok(None),
        }
    }
}

impl AnnotationChunk {
    /// Writes the annotations of the batch as JSON values, in order.
    pub fn encode_chunk(&self) -> (items: Vec<Json>)
        ensures
            items_view(items@) == encode_all(self@.chunk),
    {
        let mut items: Vec<Json> = Vec::new();
        let mut i: usize = 0;
        while i < self.chunk.len()
            invariant
                i <= self.chunk.len(),
                items.len() == i,
                forall|k: int| 0 <= k < i ==> (#[trigger] items@[k])@ == self.chunk@[k]@.encode(),
            decreases self.chunk.len() - i,
        {
            items.push(self.chunk[i].encode());
            i = i + 1;
        }
        proof {
            lemma_items_view(items@);
            assert(items_view(items@) =~= encode_all(self@.chunk));
        }
        items
    }

    /// Reads annotations from JSON values, in order, and stops at the first
    /// value that holds none.
    pub fn decode_chunk(items: &Vec<Json>) -> (r: Result<Vec<BundledAnnotation>, SchemaError>)
        ensures
            match r {
                Ok(chunk) => decode_all(items_view(items@)) == Ok::<
                    Seq<BundledAnnotationView>,
                    SchemaError,
                >(annotations_view(chunk@)),
                Err(e) => decode_all(items_view(items@)) == Err::<
                    Seq<BundledAnnotationView>,
                    SchemaError,
                >(e),
            },
    {
        let ghost views = items_view(items@);
        proof {
            lemma_items_view(items@);
            assert(views.take(0) =~= Seq::<JsonView>::empty());
        }
        let mut chunk: Vec<BundledAnnotation> = Vec::new();
        proof {
            assert(annotations_view(chunk@) =~= Seq::<BundledAnnotationView>::empty());
            assert(decode_all(views.take(0)) == Ok::<Seq<BundledAnnotationView>, SchemaError>(
                Seq::empty(),
            ));
        }
        let mut i: usize = 0;
        while i < items.len()
            invariant
                i <= items.len(),
                views == items_view(items@),
                views.len() == items.len(),
                forall|k: int| 0 <= k < items.len() ==> (#[trigger] views[k]) == items@[k]@,
                decode_all(views.take(i as int)) == Ok::<Seq<BundledAnnotationView>, SchemaError>(
                    annotations_view(chunk@),
                ),
            decreases items.len() - i,
        {
            proof {
                lemma_decode_all_step(views, i as int);
            }
            let ghost before = annotations_view(chunk@);
            match BundledAnnotation::decode(&items[i]) {
                Ok(annotation) => {
                    chunk.push(annotation);
                    proof {
                        assert(annotations_view(chunk@) =~= before.push(annotation@));
                    }
                },
                Err(e) => {
                    proof {
                        lemma_decode_all_error(views, i + 1);
                    }
                    return Err(e);
                },
            }
            i = i + 1;
        }
        proof {
            assert(views.take(i as int) =~= views);
        }
        Ok(chunk)
    }

    /// Writes the batch as a JSON object.
    pub fn encode(&self) -> (value: Json)
        ensures
            value@ == self@.encode(),
    {
        let mut members: Vec<(String, Json)> = Vec::new();
        put(&mut members, Field::Chunk, Json::Array(self.encode_chunk()));
        put_opt_text(&mut members, Field::NextBatch, &self.next_batch);
        object(members)
    }

    /// Reads the batch from a JSON object.
    pub fn decode(value: &Json) -> (r: Result<AnnotationChunk, SchemaError>)
        ensures
            result_view(r) == AnnotationChunkView::decode(value@),
    {
        let members = match value {
            Json::Object(members) => members,
            _ => return Err(SchemaError::NotAnObject),
        };
        let chunk = match find(members, Field::Chunk) {
            Some(Json::Array(items)) => match AnnotationChunk::decode_chunk(items) {
                Ok(chunk) => chunk,
                Err(e) => return Err(e),
            },
            Some(_) => return Err(SchemaError::WrongType(Field::Chunk)),
            None => return Err(SchemaError::Missing(Field::Chunk)),
        };
        let next_batch = match get_opt_text(members, Field::NextBatch) {
            Ok(v) => v,
            Err(e) => return Err(e),
        };
        Ok(AnnotationChunk { chunk, next_batch })
    }
}

/// Precompiled list of relations to this event grouped by relation type.
#[derive(Clone, Debug, Default, PartialEq, Eq)]
pub struct Relations {
    /// Annotation relations.
    pub annotation: Option<AnnotationChunk>,
}

/// The mathematical value of a [`Relations`].
pub ghost struct RelationsView {
    pub annotation: Option<AnnotationChunkView>,
}

impl View for Relations {
    type V = RelationsView;

    open spec fn view(&self) -> RelationsView {
        RelationsView { annotation: opt_view(self.annotation) }
    }
}

impl RelationsView {
    /// The batch of annotations, where there is one, is canonical.
    pub open spec fn canonical(self) -> bool {
        self.annotation matches Some(a) ==> a.canonical()
    }

    /// The JSON value of the relations: the annotations under `m.annotation`,
    /// where there are any.
    pub open spec fn encode(self) -> JsonView {
        JsonView::Object(
            with_opt(
                Seq::empty(),
                Field::Annotation,
                AnnotationChunkView::encode_opt(self.annotation),
            ),
        )
    }

    /// The relations that a JSON value holds.
    pub open spec fn decode(value: JsonView) -> Result<RelationsView, SchemaError> {
        match value {
            JsonView::Object(m) => match AnnotationChunkView::decode_opt(m, Field::Annotation) {
                Ok(annotation) => Ok(RelationsView { annotation }),
                Err(e) => Err(e),
            },
            _ => Err(SchemaError::NotAnObject),
        }
    }
}

impl Relations {
    /// Writes the relations as a JSON object.
    pub fn encode(&self) -> (value: Json)
        ensures
            value@ == self@.encode(),
    {
        let mut members: Vec<(String, Json)> = Vec::new();
        proof {
            reveal(with_opt);
        }
        match &self.annotation {
            Some(a) => put(&mut members, Field::Annotation, a.encode()),
            None => {},
        }
        object(members)
    }

    /// Reads the relations from a JSON object.
    pub fn decode(value: &Json) -> (r: Result<Relations, SchemaError>)
        ensures
            result_view(r) == RelationsView::decode(value@),
    {
        let members = match value {
            Json::Object(members) => members,
            _ => return Err(SchemaError::NotAnObject),
        };
        match find_present(members, Field::Annotation) {
            Some(value) => match AnnotationChunk::decode(value) {
                Ok(a) => Ok(Relations { annotation: Some(a) }),
                Err(e) => Err(e),
            },
            None => Ok(Relations { annotation: None }),
        }
    }
}

/// What is read from a bundled annotation is canonical.
pub proof fn lemma_bundled_annotation_decoded(value: JsonView)
    ensures
        BundledAnnotationView::decode(value) matches Ok(v) ==> v.canonical(),
{
    match value {
        JsonView::Object(m) => lemma_bundled_reaction_decoded(m),
        _ => {},
    }
}

/// The annotations that are read from a batch are canonical.
pub proof fn lemma_chunk_decoded(items: Seq<JsonView>)
    ensures
        decode_all(items) matches Ok(chunk) ==> forall|i: int|
            0 <= i < chunk.len() ==> (#[trigger] chunk[i]).canonical(),
    decreases items.len(),
{
    if items.len() > 0 {
        lemma_chunk_decoded(items.drop_last());
        lemma_bundled_annotation_decoded(items.last());
    }
}

/// What is read from a batch of annotations is canonical.
pub proof fn lemma_annotation_chunk_decoded(value: JsonView)
    ensures
        AnnotationChunkView::decode(value) matches Ok(v) ==> v.canonical(),
{
    match value {
        JsonView::Object(m) => match member(m, Field::Chunk) {
            Some(JsonView::Array(items)) => lemma_chunk_decoded(items),
            _ => {},
        },
        _ => {},
    }
}

/// What is read from the relations of an event is canonical.
pub proof fn lemma_relations_decoded(value: JsonView)
    ensures
        RelationsView::decode(value) matches Ok(v) ==> v.canonical(),
{
    match value {
        JsonView::Object(m) => match present(m, Field::Annotation) {
            Some(inner) => lemma_annotation_chunk_decoded(inner),
            None => {},
        },
        _ => {},
    }
}

/// Reading a bundled annotation that was written gives it back.
pub proof fn lemma_bundled_annotation_round_trip(v: BundledAnnotationView)
    requires
        v.canonical(),
    ensures
        BundledAnnotationView::decode(v.encode()) == Ok::<BundledAnnotationView, SchemaError>(v),
{
    lemma_member_with();
    match v {
        BundledAnnotationView::Reaction(r) => {
            let opening = with(Seq::empty(), Field::Type, JsonView::String(reaction_text()));
            lemma_bundled_reaction_round_trip(r, opening);
        },
    }
}

/// Reading the annotations of a batch that were written gives them back.
pub proof fn lemma_chunk_round_trip(chunk: Seq<BundledAnnotationView>)
    requires
        forall|i: int| 0 <= i < chunk.len() ==> (#[trigger] chunk[i]).canonical(),
    ensures
        decode_all(encode_all(chunk)) == Ok::<Seq<BundledAnnotationView>, SchemaError>(chunk),
    decreases chunk.len(),
{
    let items = encode_all(chunk);
    if chunk.len() == 0 {
        assert(chunk =~= Seq::empty());
        assert(decode_all(items) == Ok::<Seq<BundledAnnotationView>, SchemaError>(Seq::empty()));
    } else {
        let first = chunk.drop_last();
        assert(items.drop_last() =~= encode_all(first));
        assert(items.last() == chunk.last().encode());
        assert forall|i: int| 0 <= i < first.len() implies (#[trigger] first[i]).canonical() by {
            assert(first[i] == chunk[i]);
        }
        lemma_chunk_round_trip(first);
        lemma_bundled_annotation_round_trip(chunk.last());
        assert(first.push(chunk.last()) =~= chunk);
        assert(decode_all(items) == match decode_all(items.drop_last()) {
            Ok(first) => match BundledAnnotationView::decode(items.last()) {
                Ok(v) => Ok(first.push(v)),
                Err(e) => Err(e),
            },
            Err(e) => Err::<Seq<BundledAnnotationView>, SchemaError>(e),
        });
    }
}

/// Reading a batch of annotations that was written gives the batch back.
pub proof fn lemma_annotation_chunk_round_trip(v: AnnotationChunkView)
    requires
        v.canonical(),
    ensures
        AnnotationChunkView::decode(v.encode()) == Ok::<AnnotationChunkView, SchemaError>(v),
{
    lemma_member_with();
    lemma_chunk_round_trip(v.chunk);
}

/// Reading the relations of an event that were written gives them back.
pub proof fn lemma_relations_round_trip(v: RelationsView)
    requires
        v.canonical(),
    ensures
        RelationsView::decode(v.encode()) == Ok::<RelationsView, SchemaError>(v),
{
    lemma_member_with();
    if v.annotation is Some {
        lemma_annotation_chunk_round_trip(v.annotation->Some_0);
    }
}

} // verus!
