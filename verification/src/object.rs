//! Reading and writing the members of a JSON object.
//!
//! A reader says what a member holds, or why it cannot be read. A member that
//! may be absent reads as `None` where it is missing and where it is `null`. A
//! writer appends one member; an absent value writes nothing.

use crate::error::SchemaError;
use crate::json::{lemma_members_view, members_view, str_eq, Json, JsonNumber, JsonView, Members};
use crate::names::Field;
use vstd::prelude::*;

verus! {

/// The value of the first member with the given key.
pub open spec fn lookup(m: Members, key: Seq<char>) -> Option<JsonView>
    decreases m.len(),
{
    if m.len() == 0 {
        None
    } else {
        match lookup(m.drop_last(), key) {
            Some(v) => Some(v),
            None => if m.last().0 == key {
                Some(m.last().1)
            } else {
                None
            },
        }
    }
}

/// The value of the first member with the given name.
pub open spec fn member(m: Members, field: Field) -> Option<JsonView> {
    lookup(m, field.text())
}

/// The value of a member that may be absent: a `null` counts as absent.
pub open spec fn present(m: Members, field: Field) -> Option<JsonView> {
    match member(m, field) {
        Some(JsonView::Null) => None,
        other => other,
    }
}

/// What a look-up finds after one more member has been appended.
pub proof fn lemma_lookup_push()
    ensures
        forall|m: Members, k: Seq<char>, v: JsonView, key: Seq<char>|
            #[trigger] lookup(m.push((k, v)), key) == (if lookup(m, key) is Some {
                lookup(m, key)
            } else if k == key {
                Some(v)
            } else {
                None
            }),
        forall|key: Seq<char>| #[trigger] lookup(Seq::empty(), key) is None,
{
    assert forall|m: Members, k: Seq<char>, v: JsonView, key: Seq<char>|
        #[trigger] lookup(m.push((k, v)), key) == (if lookup(m, key) is Some {
            lookup(m, key)
        } else if k == key {
            Some(v)
        } else {
            None
        }) by {
        let extended = m.push((k, v));
        assert(extended.drop_last() =~= m);
        assert(extended.last() == (k, v));
    }
    assert forall|key: Seq<char>| #[trigger] lookup(Seq::empty(), key) is None by {
        assert(Seq::<(Seq<char>, JsonView)>::empty().len() == 0);
    }
}

/// A look-up in the first `i + 1` members, from the look-up in the first `i`.
pub proof fn lemma_lookup_step(m: Members, i: int, key: Seq<char>)
    requires
        0 <= i < m.len(),
    ensures
        lookup(m.take(i + 1), key) == (if lookup(m.take(i), key) is Some {
            lookup(m.take(i), key)
        } else if m[i].0 == key {
            Some(m[i].1)
        } else {
            None
        }),
{
    assert(m.take(i + 1).drop_last() =~= m.take(i));
    assert(m.take(i + 1).last() == m[i]);
}

/// What the first members hold under a key, the whole object holds under it.
pub proof fn lemma_lookup_prefix(m: Members, i: int, key: Seq<char>)
    requires
        0 <= i <= m.len(),
        lookup(m.take(i), key) is Some,
    ensures
        lookup(m, key) == lookup(m.take(i), key),
    decreases m.len() - i,
{
    if i == m.len() {
        assert(m.take(i) =~= m);
    } else {
        lemma_lookup_step(m, i, key);
        lemma_lookup_prefix(m, i + 1, key);
    }
}

/// Finds the first member with the given name.
pub fn find<'a>(members: &'a Vec<(String, Json)>, field: Field) -> (found: Option<&'a Json>)
    ensures
        match found {
            Some(value) => member(members_view(members@), field) == Some(value@),
            None => member(members_view(members@), field) is None,
        },
{
    let key = field.name();
    let ghost m = members_view(members@);
    proof {
        lemma_members_view(members@);
        lemma_lookup_push();
        assert(m.take(0) =~= Seq::<(Seq<char>, JsonView)>::empty());
    }
    let mut i: usize = 0;
    while i < members.len()
        invariant
            i <= members.len(),
            key@ == field.text(),
            m == members_view(members@),
            m.len() == members.len(),
            forall|k: int| 0 <= k < members.len() ==> (#[trigger] m[k]) == (members@[k].0@, members@[k].1@),
            lookup(m.take(i as int), key@) is None,
        decreases members.len() - i,
    {
        proof {
            lemma_lookup_step(m, i as int, key@);
        }
        if str_eq(members[i].0.as_str(), key) {
            proof {
                lemma_lookup_prefix(m, i + 1, key@);
            }
            return Some(&members[i].1);
        }
        i = i + 1;
    }
    proof {
        assert(m.take(i as int) =~= m);
    }
    None
}

/// The text that a value is.
pub open spec fn as_text(value: JsonView, field: Field) -> Result<Seq<char>, SchemaError> {
    match value {
        JsonView::String(s) => Ok(s),
        _ => Err(SchemaError::WrongType(field)),
    }
}

/// The truth value that a value is.
pub open spec fn as_bool(value: JsonView, field: Field) -> Result<bool, SchemaError> {
    match value {
        JsonView::Bool(b) => Ok(b),
        _ => Err(SchemaError::WrongType(field)),
    }
}

/// The safe unsigned integer that a value is.
pub open spec fn as_uint(value: JsonView, field: Field) -> Result<u64, SchemaError> {
    match value {
        JsonView::Number(n) => match n.safe_uint() {
            Some(v) => Ok(v),
            None => if n.integer() is Some {
                Err(SchemaError::OutOfRange(field))
            } else {
                Err(SchemaError::WrongType(field))
            },
        },
        _ => Err(SchemaError::WrongType(field)),
    }
}

/// The safe signed integer that a value is.
pub open spec fn as_int(value: JsonView, field: Field) -> Result<i64, SchemaError> {
    match value {
        JsonView::Number(n) => match n.safe_int() {
            Some(v) => Ok(v),
            None => if n.integer() is Some {
                Err(SchemaError::OutOfRange(field))
            } else {
                Err(SchemaError::WrongType(field))
            },
        },
        _ => Err(SchemaError::WrongType(field)),
    }
}

/// The text of a member that has to be there.
pub open spec fn text_of(m: Members, field: Field) -> Result<Seq<char>, SchemaError> {
    match member(m, field) {
        Some(value) => as_text(value, field),
        None => Err(SchemaError::Missing(field)),
    }
}

/// The text of a member that may be absent.
pub open spec fn opt_text_of(m: Members, field: Field) -> Result<Option<Seq<char>>, SchemaError> {
    match present(m, field) {
        Some(value) => match as_text(value, field) {
            Ok(s) => Ok(Some(s)),
            Err(e) => Err(e),
        },
        None => Ok(None),
    }
}

/// The truth value of a member that has to be there.
pub open spec fn bool_of(m: Members, field: Field) -> Result<bool, SchemaError> {
    match member(m, field) {
        Some(value) => as_bool(value, field),
        None => Err(SchemaError::Missing(field)),
    }
}

/// The safe unsigned integer of a member that has to be there.
pub open spec fn uint_of(m: Members, field: Field) -> Result<u64, SchemaError> {
    match member(m, field) {
        Some(value) => as_uint(value, field),
        None => Err(SchemaError::Missing(field)),
    }
}

/// The safe unsigned integer of a member that may be absent.
pub open spec fn opt_uint_of(m: Members, field: Field) -> Result<Option<u64>, SchemaError> {
    match present(m, field) {
        Some(value) => match as_uint(value, field) {
            Ok(v) => Ok(Some(v)),
            Err(e) => Err(e),
        },
        None => Ok(None),
    }
}

/// The safe signed integer of a member that may be absent.
pub open spec fn opt_int_of(m: Members, field: Field) -> Result<Option<i64>, SchemaError> {
    match present(m, field) {
        Some(value) => match as_int(value, field) {
            Ok(v) => Ok(Some(v)),
            Err(e) => Err(e),
        },
        None => Ok(None),
    }
}

/// The view of text that may be absent.
pub open spec fn opt_text_view(text: Option<String>) -> Option<Seq<char>> {
    match text {
        Some(s) => Some(s@),
        None => None,
    }
}

/// The view of a text reader's result.
pub open spec fn text_result_view(r: Result<String, SchemaError>) -> Result<Seq<char>, SchemaError> {
    match r {
        Ok(s) => Ok(s@),
        Err(e) => Err(e),
    }
}

/// The view of an optional text reader's result.
pub open spec fn opt_text_result_view(r: Result<Option<String>, SchemaError>) -> Result<
    Option<Seq<char>>,
    SchemaError,
> {
    match r {
        Ok(s) => Ok(opt_text_view(s)),
        Err(e) => Err(e),
    }
}

/// Finds a member that may be absent: a `null` counts as absent.
pub fn find_present<'a>(members: &'a Vec<(String, Json)>, field: Field) -> (found: Option<&'a Json>)
    ensures
        match found {
            Some(value) => present(members_view(members@), field) == Some(value@),
            None => present(members_view(members@), field) is None,
        },
{
    match find(members, field) {
        Some(Json::Null) => None,
        other => other,
    }
}

/// Reads a value as text.
pub fn read_text(value: &Json, field: Field) -> (r: Result<String, SchemaError>)
    ensures
        text_result_view(r) == as_text(value@, field),
{
    match value {
        Json::String(s) => Ok(s.clone()),
        _ => Err(SchemaError::WrongType(field)),
    }
}

/// Reads a value as a truth value.
pub fn read_bool(value: &Json, field: Field) -> (r: Result<bool, SchemaError>)
    ensures
        r == as_bool(value@, field),
{
    match value {
        Json::Bool(b) => Ok(*b),
        _ => Err(SchemaError::WrongType(field)),
    }
}

/// Reads a value as a safe unsigned integer.
pub fn read_uint(value: &Json, field: Field) -> (r: Result<u64, SchemaError>)
    ensures
        r == as_uint(value@, field),
{
    match value {
        Json::Number(n) => match n.to_safe_uint() {
            Some(v) => Ok(v),
            None => match n {
                JsonNumber::Real(_) => Err(SchemaError::WrongType(field)),
                _ => Err(SchemaError::OutOfRange(field)),
            },
        },
        _ => Err(SchemaError::WrongType(field)),
    }
}

/// Reads a value as a safe signed integer.
pub fn read_int(value: &Json, field: Field) -> (r: Result<i64, SchemaError>)
    ensures
        r == as_int(value@, field),
{
    match value {
        Json::Number(n) => match n.to_safe_int() {
            Some(v) => Ok(v),
            None => match n {
                JsonNumber::Real(_) => Err(SchemaError::WrongType(field)),
                _ => Err(SchemaError::OutOfRange(field)),
            },
        },
        _ => Err(SchemaError::WrongType(field)),
    }
}

/// Reads the text of a member that has to be there.
pub fn get_text(members: &Vec<(String, Json)>, field: Field) -> (r: Result<String, SchemaError>)
    ensures
        text_result_view(r) == text_of(members_view(members@), field),
{
    match find(members, field) {
        Some(value) => read_text(value, field),
        None => Err(SchemaError::Missing(field)),
    }
}

/// Reads the text of a member that may be absent.
pub fn get_opt_text(members: &Vec<(String, Json)>, field: Field) -> (r: Result<
    Option<String>,
    SchemaError,
>)
    ensures
        opt_text_result_view(r) == opt_text_of(members_view(members@), field),
{
    match find_present(members, field) {
        Some(value) => match read_text(value, field) {
            Ok(s) => Ok(Some(s)),
            Err(e) => Err(e),
        },
        None => Ok(None),
    }
}

/// Reads the truth value of a member that has to be there.
pub fn get_bool(members: &Vec<(String, Json)>, field: Field) -> (r: Result<bool, SchemaError>)
    ensures
        r == bool_of(members_view(members@), field),
{
    match find(members, field) {
        Some(value) => read_bool(value, field),
        None => Err(SchemaError::Missing(field)),
    }
}

/// Reads the safe unsigned integer of a member that has to be there.
pub fn get_uint(members: &Vec<(String, Json)>, field: Field) -> (r: Result<u64, SchemaError>)
    ensures
        r == uint_of(members_view(members@), field),
{
    match find(members, field) {
        Some(value) => read_uint(value, field),
        None => Err(SchemaError::Missing(field)),
    }
}

/// Reads the safe unsigned integer of a member that may be absent.
pub fn get_opt_uint(members: &Vec<(String, Json)>, field: Field) -> (r: Result<
    Option<u64>,
    SchemaError,
>)
    ensures
        r == opt_uint_of(members_view(members@), field),
{
    match find_present(members, field) {
        Some(value) => match read_uint(value, field) {
            Ok(v) => Ok(Some(v)),
            Err(e) => Err(e),
        },
        None => Ok(None),
    }
}

/// Reads the safe signed integer of a member that may be absent.
pub fn get_opt_int(members: &Vec<(String, Json)>, field: Field) -> (r: Result<
    Option<i64>,
    SchemaError,
>)
    ensures
        r == opt_int_of(members_view(members@), field),
{
    match find_present(members, field) {
        Some(value) => match read_int(value, field) {
            Ok(v) => Ok(Some(v)),
            Err(e) => Err(e),
        },
        None => Ok(None),
    }
}

/// The members with one more at the end.
#[verifier::opaque]
pub open spec fn with(m: Members, field: Field, value: JsonView) -> Members {
    m.push((field.text(), value))
}

/// The members with one more at the end, where there is a value to write.
#[verifier::opaque]
pub open spec fn with_opt(m: Members, field: Field, value: Option<JsonView>) -> Members {
    match value {
        Some(v) => with(m, field, v),
        None => m,
    }
}

/// The value that stands for text that may be absent.
pub open spec fn opt_text_json(text: Option<Seq<char>>) -> Option<JsonView> {
    match text {
        Some(s) => Some(JsonView::String(s)),
        None => None,
    }
}

/// The value that stands for an unsigned integer.
pub open spec fn uint_json(value: u64) -> JsonView {
    JsonView::Number(JsonNumber::Unsigned(value))
}

/// The value that stands for an unsigned integer that may be absent.
pub open spec fn opt_uint_json(value: Option<u64>) -> Option<JsonView> {
    match value {
        Some(v) => Some(uint_json(v)),
        None => None,
    }
}

/// The value that stands for a signed integer that may be absent.
pub open spec fn opt_int_json(value: Option<i64>) -> Option<JsonView> {
    match value {
        Some(v) => Some(JsonView::Number(JsonNumber::of_int(v))),
        None => None,
    }
}

/// Appends a member.
pub fn put(members: &mut Vec<(String, Json)>, field: Field, value: Json)
    ensures
        members_view(final(members)@) == with(members_view(old(members)@), field, value@),
{
    let ghost before = members@;
    members.push((field.name().to_owned(), value));
    proof {
        reveal(with);
        assert(members@.drop_last() =~= before);
        assert(members_view(members@) == members_view(members@.drop_last()).push(
            (members@.last().0@, members@.last().1@),
        ));
    }
}

/// Appends a member that holds text.
pub fn put_text(members: &mut Vec<(String, Json)>, field: Field, text: &String)
    ensures
        members_view(final(members)@) == with(
            members_view(old(members)@),
            field,
            JsonView::String(text@),
        ),
{
    put(members, field, Json::String(text.clone()));
}

/// Appends a member that holds text, where there is text to write.
pub fn put_opt_text(members: &mut Vec<(String, Json)>, field: Field, text: &Option<String>)
    ensures
        members_view(final(members)@) == with_opt(
            members_view(old(members)@),
            field,
            opt_text_json(opt_text_view(*text)),
        ),
{
    proof {
        reveal(with_opt);
    }
    match text {
        Some(s) => put_text(members, field, s),
        None => {},
    }
}

/// Appends a member that holds an unsigned integer.
pub fn put_uint(members: &mut Vec<(String, Json)>, field: Field, value: u64)
    ensures
        members_view(final(members)@) == with(members_view(old(members)@), field, uint_json(value)),
{
    put(members, field, Json::Number(JsonNumber::Unsigned(value)));
}

/// Appends a member that holds an unsigned integer, where there is one to write.
pub fn put_opt_uint(members: &mut Vec<(String, Json)>, field: Field, value: Option<u64>)
    ensures
        members_view(final(members)@) == with_opt(
            members_view(old(members)@),
            field,
            opt_uint_json(value),
        ),
{
    proof {
        reveal(with_opt);
    }
    match value {
        Some(v) => put_uint(members, field, v),
        None => {},
    }
}

/// Appends a member that holds a signed integer, where there is one to write.
pub fn put_opt_int(members: &mut Vec<(String, Json)>, field: Field, value: Option<i64>)
    ensures
        members_view(final(members)@) == with_opt(
            members_view(old(members)@),
            field,
            opt_int_json(value),
        ),
{
    proof {
        reveal(with_opt);
    }
    match value {
        Some(v) => put(members, field, Json::Number(JsonNumber::from_int(v))),
        None => {},
    }
}

/// What a member holds after one more has been appended, told by the names.
pub proof fn lemma_member_with()
    ensures
        forall|m: Members, field: Field, value: JsonView, key: Field|
            #[trigger] member(with(m, field, value), key) == (if member(m, key) is Some {
                member(m, key)
            } else if key == field {
                Some(value)
            } else {
                None
            }),
        forall|m: Members, field: Field, value: Option<JsonView>, key: Field|
            #[trigger] member(with_opt(m, field, value), key) == (if member(m, key) is Some {
                member(m, key)
            } else if key == field {
                value
            } else {
                None
            }),
        forall|key: Field| #[trigger] member(Seq::empty(), key) is None,
{
    reveal(with);
    reveal(with_opt);
    lemma_lookup_push();
    crate::names::lemma_field_names_differ();
}

/// Makes an object of members.
pub fn object(members: Vec<(String, Json)>) -> (value: Json)
    ensures
        value@ == JsonView::Object(members_view(members@)),
{
    Json::Object(members)
}

} // verus!
