//! What holds of the relation transform, for every relation and every value.

use crate::json::JsonView;
use crate::names::lemma_relation_kind_of_text;
use crate::object::lemma_member_with;
use crate::relationships::{reply_of, tagged_of, RelationView, TaggedView, WireView};
use vstd::prelude::*;

verus! {

/// From the logical shape to the wire shape and back is the identity.
pub proof fn lemma_wire_round_trip(relation: RelationView)
    ensures
        RelationView::from_wire(relation.to_wire()) == relation,
{
}

/// From the wire shape to the logical shape and back is the identity.
pub proof fn lemma_wire_inverse(wire: WireView)
    ensures
        RelationView::from_wire(wire).to_wire() == wire,
{
}

/// No two relations have the same wire shape.
pub proof fn lemma_to_wire_injective(a: RelationView, b: RelationView)
    requires
        a.to_wire() == b.to_wire(),
    ensures
        a == b,
{
    lemma_wire_round_trip(a);
    lemma_wire_round_trip(b);
}

/// A value that holds a reply under `m.in_reply_to` is read as that reply,
/// whatever it holds under `rel_type`, and whether or not the kinds that
/// `rel_type` tells are taken.
pub proof fn lemma_reply_takes_precedence(value: JsonView, rel_types: bool)
    requires
        reply_of(value) is Some,
    ensures
        RelationView::decode(value, rel_types) == (RelationView::Reply {
            event_id: reply_of(value)->Some_0,
        }),
{
}

/// A value that is no reply and no relation of a kind that is taken is read
/// as a custom relation that holds the value, and written back as the value.
pub proof fn lemma_custom_relation_preserved(value: JsonView, rel_types: bool)
    requires
        reply_of(value) is None,
        rel_types ==> tagged_of(value) is None,
    ensures
        RelationView::decode(value, rel_types) == RelationView::Custom(value),
        RelationView::decode(value, rel_types).encode() == value,
{
}

/// Where the kinds that `rel_type` tells are not taken, a value is read as a
/// reply or as a custom relation, never as one of those kinds.
pub proof fn lemma_rel_types_off(value: JsonView)
    ensures
        RelationView::decode(value, false) is Reply || RelationView::decode(value, false)
            == RelationView::Custom(value),
{
}

/// The object of a relation that `rel_type` tells is read as that relation,
/// and holds no reply.
pub proof fn lemma_tagged_round_trip(tagged: TaggedView)
    ensures
        reply_of(JsonView::Object(tagged.members())) is None,
        tagged_of(JsonView::Object(tagged.members())) == Some(tagged),
{
    lemma_member_with();
    lemma_relation_kind_of_text();
}

/// The object of a reply is read as that reply.
pub proof fn lemma_reply_round_trip(event_id: Seq<char>)
    ensures
        reply_of((WireView::Reply { event_id }).to_json()) == Some(event_id),
{
    lemma_member_with();
}

/// Reading a relation that was written gives the relation back: for every
/// known kind that is taken, and for a custom relation whose value has no
/// shape of a kind that is taken.
pub proof fn lemma_relation_round_trip(relation: RelationView, rel_types: bool)
    requires
        relation.faithful(rel_types),
    ensures
        RelationView::decode(relation.encode(), rel_types) == relation,
{
    match relation {
        RelationView::Custom(j) => {},
        RelationView::Reply { event_id } => {
            lemma_reply_round_trip(event_id);
        },
        _ => {
            let tagged = relation.to_wire()->Relation_0;
            lemma_tagged_round_trip(tagged);
        },
    }
}

/// Writing a relation that was read gives a value that reads the same.
pub proof fn lemma_relation_decode_stable(value: JsonView, rel_types: bool)
    ensures
        RelationView::decode(RelationView::decode(value, rel_types).encode(), rel_types)
            == RelationView::decode(value, rel_types),
{
    let relation = RelationView::decode(value, rel_types);
    assert(relation.faithful(rel_types));
    lemma_relation_round_trip(relation, rel_types);
}

/// A relation that is read is faithful, and unless it was read from `null` it
/// comes back from the member that it is written in.
pub proof fn lemma_relation_decoded(value: JsonView, rel_types: bool)
    ensures
        RelationView::decode(value, rel_types).faithful(rel_types),
        !(value is Null) ==> RelationView::decode(value, rel_types).embeddable(rel_types),
{
}

/// A known kind of relation is written as an object.
pub proof fn lemma_known_relation_is_object(relation: RelationView)
    requires
        !(relation is Custom),
    ensures
        relation.encode() is Object,
{
}

} // verus!
