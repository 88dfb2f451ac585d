//! JSON documents as plain data, with their mathematical view.

use crate::text::same_text;
use vstd::prelude::*;

verus! {

/// `serde_json::Number`, a JSON number as `serde_json` holds it.
#[verifier::external_type_specification]
#[verifier::external_body]
pub struct ExNumber(serde_json::Number);

/// `Clone::clone` of `serde_json::Number`: the copy is the number it was made from.
pub assume_specification[ <serde_json::Number as Clone>::clone ](n: &serde_json::Number) -> (r:
    serde_json::Number)
    ensures
        r == *n,
;

/// A JSON document. An object keeps its members in the order given; a number is
/// carried as `serde_json` holds it and never looked into.
#[derive(Debug, PartialEq)]
pub enum Json {
    Null,
    Bool(bool),
    Number(serde_json::Number),
    String(String),
    Array(Vec<Json>),
    Object(Vec<Member>),
}

/// One member of a JSON object: a key and the value under it.
#[derive(Debug, PartialEq)]
pub struct Member {
    pub key: String,
    pub value: Json,
}

/// The mathematical value of a [`Json`].
pub enum JsonView {
    Null,
    Bool(bool),
    Number(serde_json::Number),
    String(Seq<char>),
    Array(Seq<JsonView>),
    Object(Seq<MemberView>),
}

/// The mathematical value of a [`Member`].
pub struct MemberView {
    pub key: Seq<char>,
    pub value: JsonView,
}

/// The views of `items`, in order.
pub open spec fn items_view(items: Seq<Json>) -> Seq<JsonView> {
    Seq::new(items.len(), |i: int| items[i].view())
}

/// The views of `members`, in order: each key's characters with its value's view.
pub open spec fn members_view(members: Seq<Member>) -> Seq<MemberView> {
    Seq::new(
        members.len(),
        |i: int| MemberView { key: members[i].key@, value: members[i].value.view() },
    )
}

impl View for Json {
    type V = JsonView;

    open spec fn view(&self) -> JsonView
        decreases self,
    {
        match self {
            Json::Null => JsonView::Null,
            Json::Bool(b) => JsonView::Bool(*b),
            Json::Number(n) => JsonView::Number(*n),
            Json::String(s) => JsonView::String(s@),
            Json::Array(items) => JsonView::Array(
                Seq::new(
                    items@.len(),
                    |i: int|
                        if 0 <= i < items@.len() {
                            items@[i].view()
                        } else {
                            JsonView::Null
                        },
                ),
            ),
            Json::Object(members) => JsonView::Object(
                Seq::new(
                    members@.len(),
                    |i: int|
                        if 0 <= i < members@.len() {
                            MemberView { key: members@[i].key@, value: members@[i].value.view() }
                        } else {
                            MemberView { key: Seq::empty(), value: JsonView::Null }
                        },
                ),
            ),
        }
    }
}

/// The view of an array is the sequence of its items' views.
pub proof fn lemma_array_view(items: Vec<Json>)
    ensures
        Json::Array(items)@ == JsonView::Array(items_view(items@)),
{
    assert(Json::Array(items)@ matches JsonView::Array(m) && m =~= items_view(items@));
}

/// The view of an object is the sequence of its members' views.
pub proof fn lemma_object_view(members: Vec<Member>)
    ensures
        Json::Object(members)@ == JsonView::Object(members_view(members@)),
{
    assert(Json::Object(members)@ matches JsonView::Object(m) && m =~= members_view(members@));
}

/// The string `s` as a document.
pub open spec fn text(s: Seq<char>) -> JsonView {
    JsonView::String(s)
}

/// The member that holds `value` under `key`.
pub open spec fn member(key: Seq<char>, value: JsonView) -> MemberView {
    MemberView { key, value }
}

/// The object without members.
pub open spec fn object() -> JsonView {
    JsonView::Object(Seq::empty())
}

/// The array without items.
pub open spec fn array() -> JsonView {
    JsonView::Array(Seq::empty())
}

impl JsonView {
    /// The document with one more member at its end, where it is an object.
    pub open spec fn with(self, key: Seq<char>, value: JsonView) -> JsonView {
        match self {
            JsonView::Object(members) => JsonView::Object(members.push(member(key, value))),
            _ => self,
        }
    }

    /// The document with one more item at its end, where it is an array.
    pub open spec fn and(self, item: JsonView) -> JsonView {
        match self {
            JsonView::Array(items) => JsonView::Array(items.push(item)),
            _ => self,
        }
    }
}

impl Json {
    /// The string `s` as a document.
    pub fn text(s: &str) -> (r: Json)
        ensures
            r@ == text(s@),
    {
        Json::String(s.to_string())
    }

    /// An object without members.
    pub fn object() -> (r: Json)
        ensures
            r@ == object(),
    {
        let members: Vec<Member> = Vec::new();
        proof {
            lemma_object_view(members);
            assert(members_view(members@) =~= Seq::<MemberView>::empty());
        }
        Json::Object(members)
    }

    /// An array without items.
    pub fn array() -> (r: Json)
        ensures
            r@ == array(),
    {
        let items: Vec<Json> = Vec::new();
        proof {
            lemma_array_view(items);
            assert(items_view(items@) =~= Seq::<JsonView>::empty());
        }
        Json::Array(items)
    }

    /// The object with `value` under `key` as one more member at its end. A
    /// document that is no object comes back as it is.
    pub fn with(self, key: &str, value: Json) -> (r: Json)
        ensures
            r@ == self@.with(key@, value@),
    {
        match self {
            Json::Object(mut members) => {
                proof {
                    lemma_object_view(members);
                }
                let ghost before = members@;
                let entry = Member { key: key.to_string(), value };
                members.push(entry);
                proof {
                    lemma_object_view(members);
                    assert(members_view(members@) =~= members_view(before).push(
                        member(key@, value@),
                    ));
                }
                Json::Object(members)
            },
            other => other,
        }
    }

    /// The array with `item` as one more item at its end. A document that is no
    /// array comes back as it is.
    pub fn and(self, item: Json) -> (r: Json)
        ensures
            r@ == self@.and(item@),
    {
        match self {
            Json::Array(mut items) => {
                proof {
                    lemma_array_view(items);
                }
                let ghost before = items@;
                items.push(item);
                proof {
                    lemma_array_view(items);
                    assert(items_view(items@) =~= items_view(before).push(item@));
                }
                Json::Array(items)
            },
            other => other,
        }
    }

    /// A copy of the whole document.
    pub fn copy(&self) -> (r: Json)
        ensures
            r@ == self@,
        decreases self,
    {
        match self {
            Json::Null => Json::Null,
            Json::Bool(b) => Json::Bool(*b),
            Json::Number(n) => Json::Number(n.clone()),
            Json::String(s) => Json::String(s.clone()),
            Json::Array(items) => {
                let mut out: Vec<Json> = Vec::new();
                let mut i: usize = 0;

                while i < items.len()
                    invariant
                        decreases_to!(*self => *items),
                        i <= items@.len(),
                        out@.len() == i,
                        forall|j: int| 0 <= j < i ==> (#[trigger] out@[j])@ == items@[j]@,
                    decreases items@.len() - i,
                {
                    assert(decreases_to!(*items => items[i as int]));
                    let item = items[i].copy();
                    out.push(item);
                    i += 1;
                }
                proof {
                    lemma_array_view(*items);
                    lemma_array_view(out);
                    assert(items_view(out@) =~= items_view(items@));
                }
                Json::Array(out)
            },
            Json::Object(members) => {
                let mut out: Vec<Member> = Vec::new();
                let mut i: usize = 0;
                while i < members.len()
                    invariant
                        decreases_to!(*self => *members),
                        i <= members@.len(),
                        out@.len() == i,
                        forall|j: int|
                            0 <= j < i ==> (#[trigger] out@[j]).key@ == members@[j].key@
                                && out@[j].value@ == members@[j].value@,
                    decreases members@.len() - i,
                {
                    assert(decreases_to!(*members => members[i as int]));
                    let value = members[i].value.copy();
                    out.push(Member { key: members[i].key.clone(), value });
                    i += 1;
                }
                proof {
                    lemma_object_view(*members);
                    lemma_object_view(out);
                    assert(members_view(out@) =~= members_view(members@));
                }
                Json::Object(out)
            },
        }
    }
}

/// The value of the first member under `key`; `None` where there is none.
pub open spec fn member_named(members: Seq<MemberView>, key: Seq<char>) -> Option<JsonView>
    decreases members.len(),
{
    if members.len() == 0 {
        None
    } else if members[0].key == key {
        Some(members[0].value)
    } else {
        member_named(members.skip(1), key)
    }
}

/// A member added at the end is found under its key where no earlier member
/// has that key, and hides none.
pub proof fn lemma_member_named_push(members: Seq<MemberView>, added: MemberView, key: Seq<char>)
    ensures
        member_named(members.push(added), key) == match member_named(members, key) {
            Some(v) => Some(v),
            None => if added.key == key {
                Some(added.value)
            } else {
                None
            },
        },
    decreases members.len(),
{
    let longer = members.push(added);
    if members.len() == 0 {
        assert(longer.skip(1) =~= Seq::<MemberView>::empty());
        assert(member_named(longer.skip(1), key).is_none());
    } else {
        assert(longer.skip(1) =~= members.skip(1).push(added));
        lemma_member_named_push(members.skip(1), added, key);
    }
}

/// The position of the first member under `key`.
pub fn find_member(members: &Vec<Member>, key: &str) -> (r: Option<usize>)
    ensures
        match r {
            Some(i) => i < members@.len() && member_named(members_view(members@), key@) == Some(
                members@[i as int].value@,
            ),
            None => member_named(members_view(members@), key@).is_none(),
        },
{
    let ghost all = members_view(members@);
    let mut i: usize = 0;
    assert(all.skip(0) =~= all);
    while i < members.len()
        invariant
            i <= members@.len(),
            all == members_view(members@),
            member_named(all, key@) == member_named(all.skip(i as int), key@),
        decreases members@.len() - i,
    {
        if same_text(members[i].key.as_str(), key) {
            return Some(i);
        }
        assert(all.skip(i as int).skip(1) =~= all.skip(i + 1));
        i += 1;
    }
    None
}

} // verus!
