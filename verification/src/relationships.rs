//! How one event relates to another, and the two shapes of that relation.
//!
//! A [`Relation`] is the logical shape. [`RelatesToJsonRepr`] is the shape of
//! the wire: a reply lies under the key `m.in_reply_to`, the other known kinds
//! are told by `rel_type`, and whatever is neither is kept as it came.
//!
//! Reading the wire goes by a fixed precedence. A value that holds a reply
//! under `m.in_reply_to` is a reply, whatever else it holds. Only then is
//! `rel_type` looked at. What is neither stays a custom relation.

use crate::json::{members_view, Json, JsonView, Members};
use crate::names::{Field, RelationKind};
use crate::object::{find, find_present, member, object, present, put, put_text, with, with_opt};
use vstd::prelude::*;

verus! {

/// Information about the event a "rich reply" is replying to.
#[derive(Clone, Debug, PartialEq, Eq)]
pub struct InReplyTo {
    /// The event being replied to.
    pub event_id: String,
}

/// An annotation for an event.
#[derive(Clone, Debug, PartialEq, Eq)]
pub struct Annotation {
    /// The event that is being annotated.
    pub event_id: String,
    /// The annotation.
    pub key: String,
}

/// A reference to another event.
#[derive(Clone, Debug, PartialEq, Eq)]
pub struct Reference {
    /// The event we are referencing.
    pub event_id: String,
}

/// An event replacing another event.
#[derive(Clone, Debug, PartialEq, Eq)]
pub struct Replacement {
    /// The event this event is replacing.
    pub event_id: String,
}

/// The relations that the wire tells by `rel_type`.
#[derive(Clone, Debug, PartialEq, Eq)]
pub enum RelationJsonRepr {
    /// An annotation to an event.
    Annotation(Annotation),
    /// A reference to another event.
    Reference(Reference),
    /// An event that replaces another event.
    Replacement(Replacement),
}

/// A relation in the shape of the wire.
#[derive(Clone, Debug, PartialEq, Eq)]
pub enum RelatesToJsonRepr {
    /// A relation that `rel_type` tells.
    Relation(RelationJsonRepr),
    /// A reply, under `m.in_reply_to`.
    Reply {
        /// Information about another message being replied to.
        in_reply_to: InReplyTo,
    },
    /// Anything else, as it came.
    Custom(Json),
}

/// Enum modeling the different ways relationships can be expressed in a
/// `m.relates_to` field of a message.
#[derive(Debug, PartialEq, Eq)]
pub enum Relation {
    /// A reference to another event.
    Reference(Reference),
    /// An annotation to an event.
    Annotation(Annotation),
    /// An event that replaces another event.
    Replacement(Replacement),
    /// An `m.in_reply_to` relation indicating that the event is a reply to
    /// another event.
    Reply {
        /// Information about another message being replied to.
        in_reply_to: InReplyTo,
    },
    /// Custom, unsupported relation.
    Custom(Json),
}

/// The mathematical value of a [`RelationJsonRepr`].
pub ghost enum TaggedView {
    Annotation { event_id: Seq<char>, key: Seq<char> },
    Reference { event_id: Seq<char> },
    Replacement { event_id: Seq<char> },
}

/// The mathematical value of a [`RelatesToJsonRepr`].
pub ghost enum WireView {
    Relation(TaggedView),
    Reply { event_id: Seq<char> },
    Custom(JsonView),
}

/// The mathematical value of a [`Relation`].
pub ghost enum RelationView {
    Reference { event_id: Seq<char> },
    Annotation { event_id: Seq<char>, key: Seq<char> },
    Replacement { event_id: Seq<char> },
    Reply { event_id: Seq<char> },
    Custom(JsonView),
}

impl View for RelationJsonRepr {
    type V = TaggedView;

    open spec fn view(&self) -> TaggedView {
        match self {
            RelationJsonRepr::Annotation(a) => TaggedView::Annotation {
                event_id: a.event_id@,
                key: a.key@,
            },
            RelationJsonRepr::Reference(r) => TaggedView::Reference { event_id: r.event_id@ },
            RelationJsonRepr::Replacement(r) => TaggedView::Replacement { event_id: r.event_id@ },
        }
    }
}

impl View for RelatesToJsonRepr {
    type V = WireView;

    open spec fn view(&self) -> WireView {
        match self {
            RelatesToJsonRepr::Relation(r) => WireView::Relation(r@),
            RelatesToJsonRepr::Reply { in_reply_to } => WireView::Reply {
                event_id: in_reply_to.event_id@,
            },
            RelatesToJsonRepr::Custom(j) => WireView::Custom(j@),
        }
    }
}

impl View for Relation {
    type V = RelationView;

    open spec fn view(&self) -> RelationView {
        match self {
            Relation::Reference(r) => RelationView::Reference { event_id: r.event_id@ },
            Relation::Annotation(a) => RelationView::Annotation {
                event_id: a.event_id@,
                key: a.key@,
            },
            Relation::Replacement(r) => RelationView::Replacement { event_id: r.event_id@ },
            Relation::Reply { in_reply_to } => RelationView::Reply { event_id: in_reply_to.event_id@ },
            Relation::Custom(j) => RelationView::Custom(j@),
        }
    }
}

/// The value of a relation that may be absent.
pub open spec fn opt_relation_view(relation: Option<Relation>) -> Option<RelationView> {
    match relation {
        Some(r) => Some(r@),
        None => None,
    }
}

impl RelationView {
    /// The relation in the shape of the wire.
    pub open spec fn to_wire(self) -> WireView {
        match self {
            RelationView::Annotation { event_id, key } => WireView::Relation(
                TaggedView::Annotation { event_id, key },
            ),
            RelationView::Reference { event_id } => WireView::Relation(
                TaggedView::Reference { event_id },
            ),
            RelationView::Replacement { event_id } => WireView::Relation(
                TaggedView::Replacement { event_id },
            ),
            RelationView::Reply { event_id } => WireView::Reply { event_id },
            RelationView::Custom(j) => WireView::Custom(j),
        }
    }

    /// The relation that a wire shape stands for.
    pub open spec fn from_wire(wire: WireView) -> RelationView {
        match wire {
            WireView::Relation(TaggedView::Annotation { event_id, key }) => RelationView::Annotation {
                event_id,
                key,
            },
            WireView::Relation(TaggedView::Reference { event_id }) => RelationView::Reference {
                event_id,
            },
            WireView::Relation(TaggedView::Replacement { event_id }) => RelationView::Replacement {
                event_id,
            },
            WireView::Reply { event_id } => RelationView::Reply { event_id },
            WireView::Custom(j) => RelationView::Custom(j),
        }
    }

    /// The JSON value of the relation.
    pub open spec fn encode(self) -> JsonView {
        self.to_wire().to_json()
    }

    /// The relation that a JSON value holds. With `rel_types` unset the kinds
    /// that `rel_type` tells are not taken, and such a value stays custom.
    pub open spec fn decode(value: JsonView, rel_types: bool) -> RelationView {
        RelationView::from_wire(WireView::from_json(value, rel_types))
    }

    /// The JSON value of a relation that may be absent.
    pub open spec fn encode_opt(relation: Option<RelationView>) -> Option<JsonView> {
        match relation {
            Some(r) => Some(r.encode()),
            None => None,
        }
    }

    /// The relation under a name, where the member may be absent.
    pub open spec fn decode_opt(m: Members, field: Field, rel_types: bool) -> Option<RelationView> {
        match present(m, field) {
            Some(value) => Some(RelationView::decode(value, rel_types)),
            None => None,
        }
    }

    /// Whether the relation comes back from the member that it was written
    /// in: it has to be faithful, and its value must not be `null`, which
    /// reads as an absent member.
    pub open spec fn embeddable(self, rel_types: bool) -> bool {
        self.faithful(rel_types) && !(self.encode() is Null)
    }

    /// Whether decoding gives the relation back after encoding: every known
    /// kind does, and a custom relation does unless its value has the shape
    /// of a kind that is taken.
    pub open spec fn faithful(self, rel_types: bool) -> bool {
        match self {
            RelationView::Custom(j) => reply_of(j) is None && (rel_types ==> tagged_of(j) is None),
            RelationView::Reply { .. } => true,
            _ => rel_types,
        }
    }
}

impl TaggedView {
    /// The kind of the relation.
    pub open spec fn kind(self) -> RelationKind {
        match self {
            TaggedView::Annotation { .. } => RelationKind::Annotation,
            TaggedView::Reference { .. } => RelationKind::Reference,
            TaggedView::Replacement { .. } => RelationKind::Replacement,
        }
    }

    /// The event that the relation points at.
    pub open spec fn event_id(self) -> Seq<char> {
        match self {
            TaggedView::Annotation { event_id, .. } => event_id,
            TaggedView::Reference { event_id } => event_id,
            TaggedView::Replacement { event_id } => event_id,
        }
    }

    /// The members of the relation's object: `rel_type`, `event_id` and, for an
    /// annotation, `key`.
    pub open spec fn members(self) -> Members {
        let head = with(
            with(Seq::empty(), Field::RelType, JsonView::String(self.kind().text())),
            Field::EventId,
            JsonView::String(self.event_id()),
        );
        match self {
            TaggedView::Annotation { key, .. } => with(head, Field::Key, JsonView::String(key)),
            _ => head,
        }
    }
}

impl WireView {
    /// The JSON value of a wire shape.
    pub open spec fn to_json(self) -> JsonView {
        match self {
            WireView::Relation(tagged) => JsonView::Object(tagged.members()),
            WireView::Reply { event_id } => JsonView::Object(
                with(
                    Seq::empty(),
                    Field::InReplyTo,
                    JsonView::Object(with(Seq::empty(), Field::EventId, JsonView::String(event_id))),
                ),
            ),
            WireView::Custom(j) => j,
        }
    }

    /// The wire shape of a JSON value: a reply first, then what `rel_type`
    /// tells if such kinds are taken, else the value as it is.
    pub open spec fn from_json(value: JsonView, rel_types: bool) -> WireView {
        match reply_of(value) {
            Some(event_id) => WireView::Reply { event_id },
            None => match tagged_of(value) {
                Some(tagged) if rel_types => WireView::Relation(tagged),
                _ => WireView::Custom(value),
            },
        }
    }
}

/// The event that a value replies to: it has to be an object that holds, under
/// `m.in_reply_to`, an object with text under `event_id`.
pub open spec fn reply_of(value: JsonView) -> Option<Seq<char>> {
    match value {
        JsonView::Object(m) => match member(m, Field::InReplyTo) {
            Some(JsonView::Object(inner)) => match member(inner, Field::EventId) {
                Some(JsonView::String(event_id)) => Some(event_id),
                _ => None,
            },
            _ => None,
        },
        _ => None,
    }
}

/// The relation that `rel_type` tells of a value: it has to be an object that
/// holds a known kind as text under `rel_type`, text under `event_id` and, for
/// an annotation, text under `key`.
pub open spec fn tagged_of(value: JsonView) -> Option<TaggedView> {
    match value {
        JsonView::Object(m) => match (member(m, Field::RelType), member(m, Field::EventId)) {
            (Some(JsonView::String(tag)), Some(JsonView::String(event_id))) => match RelationKind::of_text(
                tag,
            ) {
                Some(RelationKind::Annotation) => match member(m, Field::Key) {
                    Some(JsonView::String(key)) => Some(TaggedView::Annotation { event_id, key }),
                    _ => None,
                },
                Some(RelationKind::Reference) => Some(TaggedView::Reference { event_id }),
                Some(RelationKind::Replacement) => Some(TaggedView::Replacement { event_id }),
                None => None,
            },
            _ => None,
        },
        _ => None,
    }
}

/// The view of a tagged relation that may be absent.
pub open spec fn opt_tagged_view(tagged: Option<RelationJsonRepr>) -> Option<TaggedView> {
    match tagged {
        Some(t) => Some(t@),
        None => None,
    }
}

/// The text under a name, where the member is there and holds text.
fn text_member(members: &Vec<(String, Json)>, field: Field) -> (text: Option<String>)
    ensures
        match text {
            Some(s) => member(members_view(members@), field) == Some(JsonView::String(s@)),
            None => !(member(members_view(members@), field) matches Some(JsonView::String(_))),
        },
{
    match find(members, field) {
        Some(Json::String(s)) => Some(s.clone()),
        _ => None,
    }
}

/// Reads the event that a value replies to.
fn read_reply(value: &Json) -> (event_id: Option<String>)
    ensures
        crate::object::opt_text_view(event_id) == reply_of(value@),
{
    match value {
        Json::Object(members) => match find(members, Field::InReplyTo) {
            Some(Json::Object(inner)) => text_member(inner, Field::EventId),
            _ => None,
        },
        _ => None,
    }
}

/// Reads the relation that `rel_type` tells of a value.
fn read_tagged(value: &Json) -> (tagged: Option<RelationJsonRepr>)
    ensures
        opt_tagged_view(tagged) == tagged_of(value@),
{
    match value {
        Json::Object(members) => {
            let tag = match text_member(members, Field::RelType) {
                Some(tag) => tag,
                None => return None,
            };
            let event_id = match text_member(members, Field::EventId) {
                Some(event_id) => event_id,
                None => return None,
            };
            match RelationKind::parse(tag.as_str()) {
                Some(RelationKind::Annotation) => match text_member(members, Field::Key) {
                    Some(key) => Some(RelationJsonRepr::Annotation(Annotation { event_id, key })),
                    None => None,
                },
                Some(RelationKind::Reference) => Some(
                    RelationJsonRepr::Reference(Reference { event_id }),
                ),
                Some(RelationKind::Replacement) => Some(
                    RelationJsonRepr::Replacement(Replacement { event_id }),
                ),
                None => None,
            }
        },
        _ => None,
    }
}

impl RelationJsonRepr {
    /// The members of the relation's object.
    pub fn to_members(&self) -> (members: Vec<(String, Json)>)
        ensures
            members_view(members@) == self@.members(),
    {
        let mut members: Vec<(String, Json)> = Vec::new();
        match self {
            RelationJsonRepr::Annotation(a) => {
                let tag = RelationKind::Annotation.name().to_owned();
                put_text(&mut members, Field::RelType, &tag);
                put_text(&mut members, Field::EventId, &a.event_id);
                put_text(&mut members, Field::Key, &a.key);
            },
            RelationJsonRepr::Reference(r) => {
                let tag = RelationKind::Reference.name().to_owned();
                put_text(&mut members, Field::RelType, &tag);
                put_text(&mut members, Field::EventId, &r.event_id);
            },
            RelationJsonRepr::Replacement(r) => {
                let tag = RelationKind::Replacement.name().to_owned();
                put_text(&mut members, Field::RelType, &tag);
                put_text(&mut members, Field::EventId, &r.event_id);
            },
        }
        members
    }
}

impl RelatesToJsonRepr {
    /// Writes the wire shape as a JSON value.
    pub fn to_json(&self) -> (value: Json)
        ensures
            value@ == self@.to_json(),
    {
        match self {
            RelatesToJsonRepr::Relation(tagged) => object(tagged.to_members()),
            RelatesToJsonRepr::Reply { in_reply_to } => {
                let mut inner: Vec<(String, Json)> = Vec::new();
                put_text(&mut inner, Field::EventId, &in_reply_to.event_id);
                let mut members: Vec<(String, Json)> = Vec::new();
                put(&mut members, Field::InReplyTo, object(inner));
                object(members)
            },
            RelatesToJsonRepr::Custom(j) => j.clone(),
        }
    }

    /// Reads the wire shape of a JSON value. Nothing is refused: a value that
    /// is no reply and no relation of a known kind is kept as it is. With
    /// `rel_types` unset the kinds that `rel_type` tells are not taken either.
    pub fn from_json(value: &Json, rel_types: bool) -> (wire: RelatesToJsonRepr)
        ensures
            wire@ == WireView::from_json(value@, rel_types),
    {
        match read_reply(value) {
            Some(event_id) => {
                return RelatesToJsonRepr::Reply { in_reply_to: InReplyTo { event_id } };
            },
            None => {},
        }
        if rel_types {
            match read_tagged(value) {
                Some(tagged) => {
                    return RelatesToJsonRepr::Relation(tagged);
                },
                None => {},
            }
        }
        RelatesToJsonRepr::Custom(value.clone())
    }
}

impl Relation {
    /// The relation in the shape of the wire. Each kind has a shape of its
    /// own: no two relations share one.
    pub fn to_wire(self) -> (wire: RelatesToJsonRepr)
        ensures
            wire@ == self@.to_wire(),
    {
        RelatesToJsonRepr::from(self)
    }

    /// The relation that a wire shape stands for.
    pub fn from_wire(wire: RelatesToJsonRepr) -> (relation: Relation)
        ensures
            relation@ == RelationView::from_wire(wire@),
    {
        Relation::from(wire)
    }

    /// A copy of the relation in the shape of the wire.
    pub fn wire(&self) -> (wire: RelatesToJsonRepr)
        ensures
            wire@ == self@.to_wire(),
    {
        match self {
            Relation::Annotation(a) => RelatesToJsonRepr::Relation(
                RelationJsonRepr::Annotation(
                    Annotation { event_id: a.event_id.clone(), key: a.key.clone() },
                ),
            ),
            Relation::Reference(r) => RelatesToJsonRepr::Relation(
                RelationJsonRepr::Reference(Reference { event_id: r.event_id.clone() }),
            ),
            Relation::Replacement(r) => RelatesToJsonRepr::Relation(
                RelationJsonRepr::Replacement(Replacement { event_id: r.event_id.clone() }),
            ),
            Relation::Reply { in_reply_to } => RelatesToJsonRepr::Reply {
                in_reply_to: InReplyTo { event_id: in_reply_to.event_id.clone() },
            },
            Relation::Custom(c) => RelatesToJsonRepr::Custom(c.clone()),
        }
    }
}

impl From<Relation> for RelatesToJsonRepr {
    fn from(value: Relation) -> (wire: RelatesToJsonRepr) {
        match value {
            Relation::Annotation(r) => RelatesToJsonRepr::Relation(RelationJsonRepr::Annotation(r)),
            Relation::Reference(r) => RelatesToJsonRepr::Relation(RelationJsonRepr::Reference(r)),
            Relation::Replacement(r) => RelatesToJsonRepr::Relation(
                RelationJsonRepr::Replacement(r),
            ),
            Relation::Reply { in_reply_to } => RelatesToJsonRepr::Reply { in_reply_to },
            Relation::Custom(c) => RelatesToJsonRepr::Custom(c),
        }
    }
}

impl vstd::std_specs::convert::FromSpecImpl<Relation> for RelatesToJsonRepr {
    open spec fn obeys_from_spec() -> bool {
        true
    }

    open spec fn from_spec(value: Relation) -> RelatesToJsonRepr {
        match value {
            Relation::Annotation(r) => RelatesToJsonRepr::Relation(RelationJsonRepr::Annotation(r)),
            Relation::Reference(r) => RelatesToJsonRepr::Relation(RelationJsonRepr::Reference(r)),
            Relation::Replacement(r) => RelatesToJsonRepr::Relation(
                RelationJsonRepr::Replacement(r),
            ),
            Relation::Reply { in_reply_to } => RelatesToJsonRepr::Reply { in_reply_to },
            Relation::Custom(c) => RelatesToJsonRepr::Custom(c),
        }
    }
}

impl From<RelatesToJsonRepr> for Relation {
    fn from(value: RelatesToJsonRepr) -> (relation: Relation) {
        match value {
            RelatesToJsonRepr::Relation(r) => match r {
                RelationJsonRepr::Annotation(a) => Relation::Annotation(a),
                RelationJsonRepr::Reference(r) => Relation::Reference(r),
                RelationJsonRepr::Replacement(r) => Relation::Replacement(r),
            },
            RelatesToJsonRepr::Reply { in_reply_to } => Relation::Reply { in_reply_to },
            RelatesToJsonRepr::Custom(v) => Relation::Custom(v),
        }
    }
}

impl vstd::std_specs::convert::FromSpecImpl<RelatesToJsonRepr> for Relation {
    open spec fn obeys_from_spec() -> bool {
        true
    }

    open spec fn from_spec(value: RelatesToJsonRepr) -> Relation {
        match value {
            RelatesToJsonRepr::Relation(r) => match r {
                RelationJsonRepr::Annotation(a) => Relation::Annotation(a),
                RelationJsonRepr::Reference(r) => Relation::Reference(r),
                RelationJsonRepr::Replacement(r) => Relation::Replacement(r),
            },
            RelatesToJsonRepr::Reply { in_reply_to } => Relation::Reply { in_reply_to },
            RelatesToJsonRepr::Custom(v) => Relation::Custom(v),
        }
    }
}

impl Clone for Relation {
    fn clone(&self) -> (copy: Relation)
        ensures
            copy@ == self@,
    {
        Relation::from_wire(self.wire())
    }
}

/// Appends a relation as a member, where there is one.
pub fn put_opt_relation(
    members: &mut Vec<(String, Json)>,
    field: Field,
    relation: &Option<Relation>,
)
    ensures
        members_view(final(members)@) == with_opt(
            members_view(old(members)@),
            field,
            RelationView::encode_opt(opt_relation_view(*relation)),
        ),
{
    proof {
        reveal(with_opt);
    }
    match relation {
        Some(r) => put(members, field, encode_relation(r)),
        None => {},
    }
}

/// Reads the relation under a name, where the member may be absent. Nothing is
/// refused.
pub fn get_opt_relation(members: &Vec<(String, Json)>, field: Field, rel_types: bool) -> (relation:
    Option<Relation>)
    ensures
        opt_relation_view(relation) == RelationView::decode_opt(
            members_view(members@),
            field,
            rel_types,
        ),
{
    match find_present(members, field) {
        Some(value) => Some(decode_relation_with(value, rel_types)),
        None => None,
    }
}

/// Writes a relation as a JSON value.
pub fn encode_relation(relation: &Relation) -> (value: Json)
    ensures
        value@ == relation@.encode(),
{
    relation.wire().to_json()
}

/// Reads a relation from a JSON value, every known kind taken. Nothing is
/// refused: what is no known relation is a custom one that holds the value.
pub fn decode_relation(value: &Json) -> (relation: Relation)
    ensures
        relation@ == RelationView::decode(value@, true),
{
    Relation::from_wire(RelatesToJsonRepr::from_json(value, true))
}

/// Reads a relation from a JSON value. With `rel_types` unset the kinds that
/// `rel_type` tells are not taken: such a value is a custom relation.
pub fn decode_relation_with(value: &Json, rel_types: bool) -> (relation: Relation)
    ensures
        relation@ == RelationView::decode(value@, rel_types),
{
    Relation::from_wire(RelatesToJsonRepr::from_json(value, rel_types))
}

} // verus!
