//! A JSON tree, with the mathematical tree that it stands for.
//!
//! An object keeps its members in the order in which they were written. A
//! member is found by its key; where a key occurs twice, the first member
//! with that key is the one that is read.

use vstd::prelude::*;

verus! {

/// A JSON number. A number with a fraction or an exponent is held by the bits of
/// its IEEE 754 double.
#[derive(Clone, Copy, Debug, PartialEq, Eq, Structural)]
pub enum JsonNumber {
    /// A non-negative integer.
    Unsigned(u64),
    /// A negative integer.
    Negative(i64),
    /// Any other number, by the bits of its double.
    Real(u64),
}

/// A JSON tree.
#[derive(Debug, PartialEq, Eq)]
pub enum Json {
    Null,
    Bool(bool),
    Number(JsonNumber),
    String(String),
    Array(Vec<Json>),
    Object(Vec<(String, Json)>),
}

/// The mathematical tree of a [`Json`].
pub ghost enum JsonView {
    Null,
    Bool(bool),
    Number(JsonNumber),
    String(Seq<char>),
    Array(Seq<JsonView>),
    Object(Seq<(Seq<char>, JsonView)>),
}

/// The members of an object: keys with their values, in order.
pub type Members = Seq<(Seq<char>, JsonView)>;

impl View for Json {
    type V = JsonView;

    open spec fn view(&self) -> JsonView
        decreases self, 0int,
    {
        match self {
            Json::Null => JsonView::Null,
            Json::Bool(b) => JsonView::Bool(*b),
            Json::Number(n) => JsonView::Number(*n),
            Json::String(s) => JsonView::String(s@),
            Json::Array(items) => JsonView::Array(items_view(items@)),
            Json::Object(members) => JsonView::Object(members_view(members@)),
        }
    }
}

/// The trees of a sequence of values.
pub open spec fn items_view(items: Seq<Json>) -> Seq<JsonView>
    decreases items, 1int,
{
    if items.len() == 0 {
        Seq::empty()
    } else {
        items_view(items.drop_last()).push(items.last()@)
    }
}

/// The members of a sequence of keyed values.
pub open spec fn members_view(members: Seq<(String, Json)>) -> Members
    decreases members, 1int,
{
    if members.len() == 0 {
        Seq::empty()
    } else {
        members_view(members.drop_last()).push((members.last().0@, members.last().1@))
    }
}

/// The trees of a sequence stand at the places of its values.
pub proof fn lemma_items_view(items: Seq<Json>)
    ensures
        items_view(items).len() == items.len(),
        forall|i: int| 0 <= i < items.len() ==> (#[trigger] items_view(items)[i]) == items[i]@,
    decreases items.len(),
{
    if items.len() > 0 {
        lemma_items_view(items.drop_last());
        assert(items_view(items) == items_view(items.drop_last()).push(items.last()@));
    } else {
        assert(items_view(items) == Seq::<JsonView>::empty());
    }
}

/// The members of a sequence stand at the places of its keyed values.
pub proof fn lemma_members_view(members: Seq<(String, Json)>)
    ensures
        members_view(members).len() == members.len(),
        forall|i: int|
            0 <= i < members.len() ==> (#[trigger] members_view(members)[i]) == (
                members[i].0@,
                members[i].1@,
            ),
    decreases members.len(),
{
    if members.len() > 0 {
        lemma_members_view(members.drop_last());
        assert(members_view(members) == members_view(members.drop_last()).push(
            (members.last().0@, members.last().1@),
        ));
    } else {
        assert(members_view(members) == Seq::<(Seq<char>, JsonView)>::empty());
    }
}

/// Whether two pieces of text hold the same characters.
///
/// Trusted: this is `==` on `str`, which std documents as equality of the two
/// strings' contents.
#[verifier::external_body]
pub(crate) fn str_eq(a: &str, b: &str) -> (same: bool)
    ensures
        same == (a@ == b@),
{
    a == b
}

impl Clone for Json {
    /// A copy of the whole tree.
    fn clone(&self) -> (copy: Json)
        ensures
            copy@ == self@,
        decreases self,
    {
        match self {
            Json::Null => Json::Null,
            Json::Bool(b) => Json::Bool(*b),
            Json::Number(n) => Json::Number(*n),
            Json::String(s) => Json::String(s.clone()),
            Json::Array(items) => {
                let mut copies: Vec<Json> = Vec::new();
                let mut i: usize = 0;
                while i < items.len()
                    invariant
                        i <= items.len(),
                        copies.len() == i,
                        forall|k: int| 0 <= k < i ==> (#[trigger] copies@[k])@ == items@[k]@,
                        forall|k: int|
                            0 <= k < items.len() ==> decreases_to!(self => #[trigger] items@[k]),
                    decreases items.len() - i,
                {
                    let item = items[i].clone();
                    copies.push(item);
                    i = i + 1;
                }
                proof {
                    lemma_items_view(copies@);
                    lemma_items_view(items@);
                    assert(items_view(copies@) =~= items_view(items@));
                }
                Json::Array(copies)
            },
            Json::Object(members) => {
                let mut copies: Vec<(String, Json)> = Vec::new();
                let mut i: usize = 0;
                while i < members.len()
                    invariant
                        i <= members.len(),
                        copies.len() == i,
                        forall|k: int|
                            0 <= k < i ==> (#[trigger] copies@[k]).0@ == members@[k].0@
                                && copies@[k].1@ == members@[k].1@,
                        forall|k: int|
                            0 <= k < members.len() ==> decreases_to!(self => #[trigger] members@[k]),
                    decreases members.len() - i,
                {
                    let key = members[i].0.clone();
                    let value = members[i].1.clone();
                    copies.push((key, value));
                    i = i + 1;
                }
                proof {
                    lemma_members_view(copies@);
                    lemma_members_view(members@);
                    assert(members_view(copies@) =~= members_view(members@));
                }
                Json::Object(copies)
            },
        }
    }
}

} // verus!
