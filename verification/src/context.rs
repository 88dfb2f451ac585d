//! The context of a pipeline run: the output of each finished step under the
//! step's id, by ascending id; and the order of strings that decides what
//! ascending means.

use crate::json::{lemma_object_view, members_view, Json, JsonView, MemberView};
use crate::json_text::{map_insert, map_members, map_new, map_to_members};
use crate::text::to_chars;
use vstd::prelude::*;

verus! {

/// The order of strings: by the first character in which two strings differ,
/// characters compared by code point; a proper prefix comes first.
pub open spec fn str_less(a: Seq<char>, b: Seq<char>) -> bool
    decreases a.len(),
{
    if b.len() == 0 {
        false
    } else if a.len() == 0 {
        true
    } else if a[0] != b[0] {
        (a[0] as u32) < (b[0] as u32)
    } else {
        str_less(a.skip(1), b.skip(1))
    }
}

/// The members of a map after `member` was inserted, given its members before,
/// keys ascending: the new member takes the place of the member with its key, or
/// stands before the first member with a greater key.
pub open spec fn inserted(members: Seq<MemberView>, member: MemberView) -> Seq<MemberView>
    decreases members.len(),
{
    if members.len() == 0 {
        seq![member]
    } else if members[0].key == member.key {
        seq![member] + members.skip(1)
    } else if str_less(member.key, members[0].key) {
        seq![member] + members
    } else {
        seq![members[0]] + inserted(members.skip(1), member)
    }
}

/// Whether the keys of `members` ascend, each less than the next, so that no
/// key comes twice.
pub open spec fn ascending(members: Seq<MemberView>) -> bool {
    forall|i: int, j: int|
        0 <= i < j < members.len() ==> str_less(
            (#[trigger] members[i]).key,
            (#[trigger] members[j]).key,
        )
}

/// Whether a document that is an object has its keys ascending; any other
/// document has.
pub open spec fn keys_ascending(doc: JsonView) -> bool {
    match doc {
        JsonView::Object(members) => ascending(members),
        _ => true,
    }
}

/// Of two strings that differ, one is less than the other.
pub proof fn lemma_str_less_total(a: Seq<char>, b: Seq<char>)
    ensures
        a == b || str_less(a, b) || str_less(b, a),
    decreases a.len(),
{
    if a.len() == 0 || b.len() == 0 {
        if a.len() == 0 && b.len() == 0 {
            assert(a =~= b);
        }
    } else if a[0] == b[0] {
        lemma_str_less_total(a.skip(1), b.skip(1));
        if a.skip(1) == b.skip(1) {
            assert forall|i: int| 0 <= i < a.len() implies a[i] == b[i] by {
                if i > 0 {
                    assert(a[i] == a.skip(1)[i - 1]);
                    assert(b[i] == b.skip(1)[i - 1]);
                }
            }
            assert(a.len() == a.skip(1).len() + 1);
            assert(b.len() == b.skip(1).len() + 1);
            assert(a =~= b);
        }
    } else {
        let x = a[0] as u32;
        let y = b[0] as u32;
        vstd::utf8::char_u32_cast(a[0], x);
        vstd::utf8::char_u32_cast(b[0], y);
        assert(x != y);
    }
}

/// The order of strings is transitive.
pub proof fn lemma_str_less_transitive(a: Seq<char>, b: Seq<char>, c: Seq<char>)
    requires
        str_less(a, b),
        str_less(b, c),
    ensures
        str_less(a, c),
    decreases a.len(),
{
    if a.len() > 0 && b.len() > 0 && c.len() > 0 {
        if a[0] == b[0] && b[0] == c[0] {
            lemma_str_less_transitive(a.skip(1), b.skip(1), c.skip(1));
        }
    }
}

/// A map whose keys ascend has them ascending after an insertion.
pub proof fn lemma_inserted_keeps_ascending(members: Seq<MemberView>, member: MemberView)
    requires
        ascending(members),
    ensures
        ascending(inserted(members, member)),
    decreases members.len(),
{
    let after = inserted(members, member);
    if members.len() == 0 {
    } else if members[0].key == member.key {
        assert forall|i: int, j: int| 0 <= i < j < after.len() implies str_less(
            (#[trigger] after[i]).key,
            (#[trigger] after[j]).key,
        ) by {
            assert(after[j] == members[j]);
            if i > 0 {
                assert(after[i] == members[i]);
            } else {
                assert(str_less(members[0].key, members[j].key));
            }
        }
    } else if str_less(member.key, members[0].key) {
        assert forall|i: int, j: int| 0 <= i < j < after.len() implies str_less(
            (#[trigger] after[i]).key,
            (#[trigger] after[j]).key,
        ) by {
            assert(after[j] == members[j - 1]);
            if i > 0 {
                assert(after[i] == members[i - 1]);
            } else if j > 1 {
                assert(str_less(members[0].key, members[j - 1].key));
                lemma_str_less_transitive(member.key, members[0].key, members[j - 1].key);
            }
        }
    } else {
        let rest = members.skip(1);
        let tail = inserted(rest, member);
        assert forall|i: int, j: int| 0 <= i < j < rest.len() implies str_less(
            (#[trigger] rest[i]).key,
            (#[trigger] rest[j]).key,
        ) by {
            assert(rest[i] == members[i + 1]);
            assert(rest[j] == members[j + 1]);
        }
        lemma_inserted_keeps_ascending(rest, member);
        lemma_inserted(rest, member);
        lemma_str_less_total(members[0].key, member.key);
        assert(after =~= seq![members[0]] + tail);
        assert forall|i: int, j: int| 0 <= i < j < after.len() implies str_less(
            (#[trigger] after[i]).key,
            (#[trigger] after[j]).key,
        ) by {
            assert(after[j] == tail[j - 1]);
            if i > 0 {
                assert(after[i] == tail[i - 1]);
            } else {
                assert(holds(tail, tail[j - 1]));
                if tail[j - 1] != member {
                    let k = choose|k: int| 0 <= k < rest.len() && rest[k] == tail[j - 1];
                    assert(rest[k] == members[k + 1]);
                    assert(str_less(members[0].key, members[k + 1].key));
                }
            }
        }
    }
}

/// Whether `members` has a member under `key`.
pub open spec fn has_key(members: Seq<MemberView>, key: Seq<char>) -> bool {
    exists|i: int| 0 <= i < members.len() && (#[trigger] members[i]).key == key
}

/// Whether `member` is one of `members`.
pub open spec fn holds(members: Seq<MemberView>, member: MemberView) -> bool {
    exists|i: int| 0 <= i < members.len() && #[trigger] members[i] == member
}

/// After an insertion the new member is there, every member under another key
/// is still there, nothing else is there, and under a new key the map has grown
/// by one.
pub proof fn lemma_inserted(members: Seq<MemberView>, member: MemberView)
    ensures
        holds(inserted(members, member), member),
        forall|x: MemberView|
            holds(members, x) && x.key != member.key ==> holds(inserted(members, member), x),
        forall|x: MemberView| #[trigger]
            holds(inserted(members, member), x) ==> x == member || holds(members, x),
        !has_key(members, member.key) ==> inserted(members, member).len() == members.len() + 1,
    decreases members.len(),
{
    let after = inserted(members, member);
    if members.len() == 0 {
        assert(after[0] == member);
    } else if members[0].key == member.key {
        assert(after[0] == member);
        assert forall|x: MemberView| holds(members, x) && x.key != member.key implies holds(
            after,
            x,
        ) by {
            let i = choose|i: int| 0 <= i < members.len() && members[i] == x;
            assert(after[i] == x);
        }
        assert forall|x: MemberView| #[trigger] holds(after, x) implies x == member || holds(
            members,
            x,
        ) by {
            let i = choose|i: int| 0 <= i < after.len() && after[i] == x;
            if i > 0 {
                assert(members[i] == x);
            }
        }
    } else if str_less(member.key, members[0].key) {
        assert(after[0] == member);
        assert forall|x: MemberView| holds(members, x) && x.key != member.key implies holds(
            after,
            x,
        ) by {
            let i = choose|i: int| 0 <= i < members.len() && members[i] == x;
            assert(after[i + 1] == x);
        }
        assert forall|x: MemberView| #[trigger] holds(after, x) implies x == member || holds(
            members,
            x,
        ) by {
            let i = choose|i: int| 0 <= i < after.len() && after[i] == x;
            if i > 0 {
                assert(members[i - 1] == x);
            }
        }
    } else {
        let rest = members.skip(1);
        let tail = inserted(rest, member);
        lemma_inserted(rest, member);
        assert(after =~= seq![members[0]] + tail);
        let j = choose|j: int| 0 <= j < tail.len() && tail[j] == member;
        assert(after[j + 1] == member);
        assert forall|x: MemberView| holds(members, x) && x.key != member.key implies holds(
            after,
            x,
        ) by {
            let i = choose|i: int| 0 <= i < members.len() && members[i] == x;
            if i == 0 {
                assert(after[0] == x);
            } else {
                assert(rest[i - 1] == x);
                assert(holds(rest, x));
                let k = choose|k: int| 0 <= k < tail.len() && tail[k] == x;
                assert(after[k + 1] == x);
            }
        }
        assert forall|x: MemberView| #[trigger] holds(after, x) implies x == member || holds(
            members,
            x,
        ) by {
            let i = choose|i: int| 0 <= i < after.len() && after[i] == x;
            if i == 0 {
                assert(members[0] == x);
            } else {
                assert(tail[i - 1] == x);
                assert(holds(tail, x));
                if x != member {
                    let k = choose|k: int| 0 <= k < rest.len() && rest[k] == x;
                    assert(members[k + 1] == x);
                }
            }
        }
        if !has_key(members, member.key) {
            assert forall|i: int| 0 <= i < rest.len() implies (#[trigger] rest[i]).key
                != member.key by {
                assert(members[i + 1].key != member.key);
            }
        }
    }
}

/// Whether `a` comes before `b` in the order of strings.
pub fn text_less(a: &str, b: &str) -> (r: bool)
    ensures
        r == str_less(a@, b@),
{
    let av = to_chars(a);
    let bv = to_chars(b);
    let mut i: usize = 0;
    assert(av@.skip(0) =~= av@);
    assert(bv@.skip(0) =~= bv@);
    while i < av.len() && i < bv.len()
        invariant
            av@ == a@,
            bv@ == b@,
            i <= av@.len(),
            i <= bv@.len(),
            str_less(a@, b@) == str_less(av@.skip(i as int), bv@.skip(i as int)),
        decreases av@.len() - i,
    {
        if av[i] != bv[i] {
            return (av[i] as u32) < (bv[i] as u32);
        }
        assert(av@.skip(i as int).skip(1) =~= av@.skip(i + 1));
        assert(bv@.skip(i as int).skip(1) =~= bv@.skip(i + 1));
        i += 1;
    }
    i < bv.len()
}

/// Whether a document that is an object has its keys ascending.
pub fn has_ascending_keys(doc: &Json) -> (r: bool)
    ensures
        r == keys_ascending(doc@),
{
    match doc {
        Json::Object(members) => {
            proof {
                lemma_object_view(*members);
            }
            let ghost all = members_view(members@);
            let mut i: usize = 1;
            while i < members.len()
                invariant
                    1 <= i,
                    all == members_view(members@),
                    doc@ == JsonView::Object(all),
                    forall|j: int, k: int|
                        0 <= j < k < i && k < all.len() ==> str_less(
                            (#[trigger] all[j]).key,
                            (#[trigger] all[k]).key,
                        ),
                decreases members@.len() - i,
            {
                if !text_less(members[i - 1].key.as_str(), members[i].key.as_str()) {
                    assert(!str_less(all[i - 1].key, all[i as int].key));
                    assert(!ascending(all));
                    return false;
                }
                assert forall|j: int, k: int| 0 <= j < k < i + 1 && k < all.len() implies str_less(
                    (#[trigger] all[j]).key,
                    (#[trigger] all[k]).key,
                ) by {
                    if k == i && j < i - 1 {
                        lemma_str_less_transitive(all[j].key, all[i - 1].key, all[i as int].key);
                    }
                }
                i += 1;
            }
            true
        },
        _ => true,
    }
}

/// The outputs of the steps that have run, each under its step's id. It is a
/// `serde_json::Map`, so it holds one output per id and hands them out by
/// ascending id.
pub struct PipelineContext {
    entries: serde_json::Map<String, serde_json::Value>,
}

impl View for PipelineContext {
    type V = Seq<MemberView>;

    closed spec fn view(&self) -> Seq<MemberView> {
        map_members(self.entries)
    }
}

/// The member that holds `output` under `id`.
pub open spec fn output_member(id: Seq<char>, output: Seq<char>) -> MemberView {
    MemberView { key: id, value: JsonView::String(output) }
}

impl PipelineContext {
    /// A context that holds nothing.
    pub fn new() -> (c: PipelineContext)
        ensures
            c@ == Seq::<MemberView>::empty(),
            ascending(c@),
    {
        PipelineContext { entries: map_new() }
    }

    /// Stores `output` under `id`, in place of an earlier output under that id.
    pub fn insert(&mut self, id: String, output: String)
        ensures
            final(self)@ == inserted(old(self)@, output_member(id@, output@)),
            ascending(old(self)@) ==> ascending(final(self)@),
    {
        proof {
            if ascending(self@) {
                lemma_inserted_keeps_ascending(self@, output_member(id@, output@));
            }
        }
        map_insert(&mut self.entries, id, output);
    }

    /// The context as a JSON object: one member per id, by ascending id.
    pub fn to_json(&self) -> (r: Json)
        ensures
            r@ == JsonView::Object(self@),
    {
        let members = map_to_members(&self.entries);
        proof {
            lemma_object_view(members);
        }
        Json::Object(members)
    }
}

} // verus!
