//! Members that hold a list of texts, or texts by key.
//!
//! A list of texts is a JSON array whose items are all text. Texts by key are
//! a JSON object whose members all hold text, in the order of the object.

use crate::error::SchemaError;
use crate::json::{
    lemma_items_view, lemma_members_view, members_view, str_eq, Json, JsonView, Members,
};
use crate::names::Field;
use crate::object::{find, member, put, with};
use vstd::prelude::*;

verus! {

/// The texts of a sequence of strings.
pub open spec fn texts_view(texts: Seq<String>) -> Seq<Seq<char>> {
    Seq::new(texts.len(), |i: int| texts[i]@)
}

/// The keyed texts of a sequence of pairs of strings.
pub open spec fn pairs_view(pairs: Seq<(String, String)>) -> Seq<(Seq<char>, Seq<char>)> {
    Seq::new(pairs.len(), |i: int| (pairs[i].0@, pairs[i].1@))
}

/// The array that stands for a list of texts.
pub open spec fn texts_json(texts: Seq<Seq<char>>) -> JsonView {
    JsonView::Array(Seq::new(texts.len(), |i: int| JsonView::String(texts[i])))
}

/// The object that stands for texts by key.
pub open spec fn pairs_json(pairs: Seq<(Seq<char>, Seq<char>)>) -> JsonView {
    JsonView::Object(Seq::new(pairs.len(), |i: int| (pairs[i].0, JsonView::String(pairs[i].1))))
}

/// Whether every item is text.
pub open spec fn all_text(items: Seq<JsonView>) -> bool {
    forall|i: int| 0 <= i < items.len() ==> (#[trigger] items[i]) is String
}

/// Whether every member holds text.
pub open spec fn all_text_members(m: Members) -> bool {
    forall|i: int| 0 <= i < m.len() ==> (#[trigger] m[i]).1 is String
}

/// The list of texts that a value is.
pub open spec fn as_texts(value: JsonView, field: Field) -> Result<Seq<Seq<char>>, SchemaError> {
    match value {
        JsonView::Array(items) if all_text(items) => Ok(
            Seq::new(items.len(), |i: int| items[i]->String_0),
        ),
        _ => Err(SchemaError::WrongType(field)),
    }
}

/// Whether a key occurs among the pairs.
pub open spec fn has_key(pairs: Seq<(Seq<char>, Seq<char>)>, key: Seq<char>) -> bool {
    exists|i: int| 0 <= i < pairs.len() && (#[trigger] pairs[i]).0 == key
}

/// The texts by key that members hold, each key with the text of the first
/// member that has it.
pub open spec fn first_pairs(m: Members) -> Seq<(Seq<char>, Seq<char>)>
    decreases m.len(),
{
    if m.len() == 0 {
        Seq::empty()
    } else {
        let first = first_pairs(m.drop_last());
        if has_key(first, m.last().0) {
            first
        } else {
            first.push((m.last().0, m.last().1->String_0))
        }
    }
}

/// The texts by key that a value is: where a key occurs twice, the first
/// member with that key is the one that is read.
pub open spec fn as_pairs(value: JsonView, field: Field) -> Result<
    Seq<(Seq<char>, Seq<char>)>,
    SchemaError,
> {
    match value {
        JsonView::Object(m) if all_text_members(m) => Ok(first_pairs(m)),
        _ => Err(SchemaError::WrongType(field)),
    }
}

/// The list of texts of a member that has to be there.
pub open spec fn texts_of(m: Members, field: Field) -> Result<Seq<Seq<char>>, SchemaError> {
    match member(m, field) {
        Some(value) => as_texts(value, field),
        None => Err(SchemaError::Missing(field)),
    }
}

/// The texts by key of a member that has to be there.
pub open spec fn pairs_of(m: Members, field: Field) -> Result<
    Seq<(Seq<char>, Seq<char>)>,
    SchemaError,
> {
    match member(m, field) {
        Some(value) => as_pairs(value, field),
        None => Err(SchemaError::Missing(field)),
    }
}

/// No key occurs twice.
pub open spec fn keys_differ(pairs: Seq<(Seq<char>, Seq<char>)>) -> bool {
    forall|i: int, j: int|
        0 <= i < j < pairs.len() ==> (#[trigger] pairs[i]).0 != (#[trigger] pairs[j]).0
}

/// The view of what a reader of a list of texts gives.
pub open spec fn texts_result_view(r: Result<Vec<String>, SchemaError>) -> Result<
    Seq<Seq<char>>,
    SchemaError,
> {
    match r {
        Ok(v) => Ok(texts_view(v@)),
        Err(e) => Err(e),
    }
}

/// The view of what a reader of texts by key gives.
pub open spec fn pairs_result_view(r: Result<Vec<(String, String)>, SchemaError>) -> Result<
    Seq<(Seq<char>, Seq<char>)>,
    SchemaError,
> {
    match r {
        Ok(v) => Ok(pairs_view(v@)),
        Err(e) => Err(e),
    }
}

/// Makes the array of a list of texts.
pub fn texts_to_json(texts: &Vec<String>) -> (value: Json)
    ensures
        value@ == texts_json(texts_view(texts@)),
{
    let mut items: Vec<Json> = Vec::new();
    let mut i: usize = 0;
    while i < texts.len()
        invariant
            i <= texts.len(),
            items.len() == i,
            forall|k: int| 0 <= k < i ==> (#[trigger] items@[k])@ == JsonView::String(texts@[k]@),
        decreases texts.len() - i,
    {
        items.push(Json::String(texts[i].clone()));
        i = i + 1;
    }
    proof {
        lemma_items_view(items@);
        assert(crate::json::items_view(items@) =~= Seq::new(
            texts_view(texts@).len(),
            |i: int| JsonView::String(texts_view(texts@)[i]),
        ));
    }
    Json::Array(items)
}

/// Makes the object of texts by key.
pub fn pairs_to_json(pairs: &Vec<(String, String)>) -> (value: Json)
    ensures
        value@ == pairs_json(pairs_view(pairs@)),
{
    let mut members: Vec<(String, Json)> = Vec::new();
    let mut i: usize = 0;
    while i < pairs.len()
        invariant
            i <= pairs.len(),
            members.len() == i,
            forall|k: int|
                0 <= k < i ==> (#[trigger] members@[k]).0@ == pairs@[k].0@ && members@[k].1@
                    == JsonView::String(pairs@[k].1@),
        decreases pairs.len() - i,
    {
        members.push((pairs[i].0.clone(), Json::String(pairs[i].1.clone())));
        i = i + 1;
    }
    proof {
        lemma_members_view(members@);
        assert(members_view(members@) =~= Seq::new(
            pairs_view(pairs@).len(),
            |i: int| (pairs_view(pairs@)[i].0, JsonView::String(pairs_view(pairs@)[i].1)),
        ));
    }
    Json::Object(members)
}

/// Reads a value as a list of texts.
pub fn read_texts(value: &Json, field: Field) -> (r: Result<Vec<String>, SchemaError>)
    ensures
        texts_result_view(r) == as_texts(value@, field),
{
    let items = match value {
        Json::Array(items) => items,
        _ => return Err(SchemaError::WrongType(field)),
    };
    let ghost views = crate::json::items_view(items@);
    proof {
        lemma_items_view(items@);
    }
    let mut texts: Vec<String> = Vec::new();
    let mut i: usize = 0;
    while i < items.len()
        invariant
            i <= items.len(),
            texts.len() == i,
            value@ == JsonView::Array(views),
            views == crate::json::items_view(items@),
            views.len() == items.len(),
            forall|k: int| 0 <= k < items.len() ==> (#[trigger] views[k]) == items@[k]@,
            forall|k: int| 0 <= k < i ==> (#[trigger] views[k]) == JsonView::String(texts@[k]@),
        decreases items.len() - i,
    {
        match &items[i] {
            Json::String(s) => {
                texts.push(s.clone());
            },
            _ => {
                proof {
                    assert(!(views[i as int] is String));
                }
                return Err(SchemaError::WrongType(field));
            },
        }
        i = i + 1;
    }
    proof {
        assert(all_text(views));
        assert(texts_view(texts@) =~= Seq::new(views.len(), |i: int| views[i]->String_0));
    }
    Ok(texts)
}

/// What the first `i + 1` members hold by key, from what the first `i` hold.
pub proof fn lemma_first_pairs_step(m: Members, i: int)
    requires
        0 <= i < m.len(),
    ensures
        first_pairs(m.take(i + 1)) == (if has_key(first_pairs(m.take(i)), m[i].0) {
            first_pairs(m.take(i))
        } else {
            first_pairs(m.take(i)).push((m[i].0, m[i].1->String_0))
        }),
{
    assert(m.take(i + 1).drop_last() =~= m.take(i));
    assert(m.take(i + 1).last() == m[i]);
}

/// Whether a key occurs among the pairs.
pub fn holds_key(pairs: &Vec<(String, String)>, key: &str) -> (found: bool)
    ensures
        found == has_key(pairs_view(pairs@), key@),
{
    let mut i: usize = 0;
    while i < pairs.len()
        invariant
            i <= pairs.len(),
            forall|k: int| 0 <= k < i ==> (#[trigger] pairs_view(pairs@)[k]).0 != key@,
        decreases pairs.len() - i,
    {
        if str_eq(pairs[i].0.as_str(), key) {
            proof {
                assert(pairs_view(pairs@)[i as int].0 == key@);
            }
            return true;
        }
        i = i + 1;
    }
    false
}

/// Reads a value as texts by key. Where a key occurs twice, the first member
/// with that key is the one that is read.
pub fn read_pairs(value: &Json, field: Field) -> (r: Result<Vec<(String, String)>, SchemaError>)
    ensures
        pairs_result_view(r) == as_pairs(value@, field),
{
    let members = match value {
        Json::Object(members) => members,
        _ => return Err(SchemaError::WrongType(field)),
    };
    let ghost m = members_view(members@);
    let mut pairs: Vec<(String, String)> = Vec::new();
    proof {
        lemma_members_view(members@);
        assert(m.take(0) =~= Seq::<(Seq<char>, JsonView)>::empty());
        assert(pairs_view(pairs@) =~= Seq::<(Seq<char>, Seq<char>)>::empty());
        assert(first_pairs(m.take(0)) == Seq::<(Seq<char>, Seq<char>)>::empty());
    }
    let mut i: usize = 0;
    while i < members.len()
        invariant
            i <= members.len(),
            value@ == JsonView::Object(m),
            m == members_view(members@),
            m.len() == members.len(),
            forall|k: int|
                0 <= k < members.len() ==> (#[trigger] m[k]) == (members@[k].0@, members@[k].1@),
            forall|k: int| 0 <= k < i ==> (#[trigger] m[k]).1 is String,
            pairs_view(pairs@) == first_pairs(m.take(i as int)),
        decreases members.len() - i,
    {
        proof {
            lemma_first_pairs_step(m, i as int);
        }
        match &members[i].1 {
            Json::String(s) => {
                if !holds_key(&pairs, members[i].0.as_str()) {
                    let ghost before = pairs_view(pairs@);
                    pairs.push((members[i].0.clone(), s.clone()));
                    proof {
                        assert(pairs_view(pairs@) =~= before.push((m[i as int].0, s@)));
                    }
                }
            },
            _ => {
                proof {
                    assert(!(m[i as int].1 is String));
                }
                return Err(SchemaError::WrongType(field));
            },
        }
        i = i + 1;
    }
    proof {
        assert(m.take(i as int) =~= m);
        assert(all_text_members(m));
    }
    Ok(pairs)
}

/// Appends a member that holds a list of texts.
pub fn put_texts(members: &mut Vec<(String, Json)>, field: Field, texts: &Vec<String>)
    ensures
        members_view(final(members)@) == with(
            members_view(old(members)@),
            field,
            texts_json(texts_view(texts@)),
        ),
{
    put(members, field, texts_to_json(texts));
}

/// Appends a member that holds texts by key.
pub fn put_pairs(members: &mut Vec<(String, Json)>, field: Field, pairs: &Vec<(String, String)>)
    ensures
        members_view(final(members)@) == with(
            members_view(old(members)@),
            field,
            pairs_json(pairs_view(pairs@)),
        ),
{
    put(members, field, pairs_to_json(pairs));
}

/// Reads the list of texts of a member that has to be there.
pub fn get_texts(members: &Vec<(String, Json)>, field: Field) -> (r: Result<
    Vec<String>,
    SchemaError,
>)
    ensures
        texts_result_view(r) == texts_of(members_view(members@), field),
{
    match find(members, field) {
        Some(value) => read_texts(value, field),
        None => Err(SchemaError::Missing(field)),
    }
}

/// Reads the texts by key of a member that has to be there.
pub fn get_pairs(members: &Vec<(String, Json)>, field: Field) -> (r: Result<
    Vec<(String, String)>,
    SchemaError,
>)
    ensures
        pairs_result_view(r) == pairs_of(members_view(members@), field),
{
    match find(members, field) {
        Some(value) => read_pairs(value, field),
        None => Err(SchemaError::Missing(field)),
    }
}

/// Reading a list of texts that was written gives the list back.
pub proof fn lemma_texts_round_trip(texts: Seq<Seq<char>>, field: Field)
    ensures
        as_texts(texts_json(texts), field) == Ok::<Seq<Seq<char>>, SchemaError>(texts),
{
    let items = texts_json(texts)->Array_0;
    assert(all_text(items));
    assert(Seq::new(items.len(), |i: int| items[i]->String_0) =~= texts);
}

/// Among the texts that members hold by key, no key occurs twice.
pub proof fn lemma_first_pairs_keys_differ(m: Members)
    ensures
        keys_differ(first_pairs(m)),
    decreases m.len(),
{
    if m.len() > 0 {
        lemma_first_pairs_keys_differ(m.drop_last());
    }
}

/// Reading texts by key that were written gives them back, where no key
/// occurs twice.
pub proof fn lemma_pairs_round_trip(pairs: Seq<(Seq<char>, Seq<char>)>, field: Field)
    requires
        keys_differ(pairs),
    ensures
        as_pairs(pairs_json(pairs), field) == Ok::<Seq<(Seq<char>, Seq<char>)>, SchemaError>(
            pairs,
        ),
    decreases pairs.len(),
{
    let m = pairs_json(pairs)->Object_0;
    assert(all_text_members(m));
    if pairs.len() == 0 {
        assert(first_pairs(m) =~= pairs);
    } else {
        let head = pairs.drop_last();
        assert(m.drop_last() =~= pairs_json(head)->Object_0);
        lemma_pairs_round_trip(head, field);
        assert(!has_key(head, m.last().0)) by {
            if has_key(head, m.last().0) {
                let i = choose|i: int| 0 <= i < head.len() && (#[trigger] head[i]).0 == m.last().0;
                assert(pairs[i].0 == pairs[pairs.len() - 1].0);
            }
        }
        assert(head.push(pairs.last()) =~= pairs);
    }
}

} // verus!
