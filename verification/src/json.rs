//! JSON values as the library builds and reads them: query selectors sent to
//! the document store, and object members.
use vstd::prelude::*;

verus! {

/// A JSON value. Numbers are kept as the text of the number, so that no
/// precision is lost between reading a query and sending it on.
#[derive(Debug)]
pub enum JsonValue {
    Null,
    Bool(bool),
    Number(String),
    Str(String),
    Array(Vec<JsonValue>),
    Object(Vec<(String, JsonValue)>),
}

/// The members of a JSON object, in order.
pub type Members = Seq<(String, JsonValue)>;

/// No two members of the object have the same key.
pub open spec fn unique_keys(m: Members) -> bool {
    forall|i: int, j: int| 0 <= i < j < m.len() ==> #[trigger] m[i].0@ != #[trigger] m[j].0@
}

/// The object has a member with key `k`.
pub open spec fn has_key(m: Members, k: Seq<char>) -> bool {
    exists|i: int| 0 <= i < m.len() && #[trigger] m[i].0@ == k
}

/// The position of the member with key `k` (meaningful when `has_key`).
pub open spec fn key_index(m: Members, k: Seq<char>) -> int {
    choose|i: int| 0 <= i < m.len() && #[trigger] m[i].0@ == k
}

/// The value stored under key `k`, if any.
pub open spec fn get_member(m: Members, k: Seq<char>) -> Option<JsonValue> {
    if has_key(m, k) {
        Some(m[key_index(m, k)].1)
    } else {
        None
    }
}

/// The value of the last member with key `k`, if any: what a key given
/// several times ends up with when the members are set in order.
pub open spec fn last_value(m: Members, k: Seq<char>) -> Option<JsonValue>
    decreases m.len(),
{
    if m.len() == 0 {
        None
    } else if m.last().0@ == k {
        Some(m.last().1)
    } else {
        last_value(m.drop_last(), k)
    }
}

/// `after` is `before` with key `k` set to `v`: an existing member with that
/// key keeps its place and gets the new value; otherwise the member is added
/// at the end. All other members stay as they were.
pub open spec fn members_inserted(before: Members, k: Seq<char>, v: JsonValue, after: Members) -> bool {
    if has_key(before, k) {
        let i = key_index(before, k);
        &&& after.len() == before.len()
        &&& after[i].0@ == k
        &&& after[i].1 == v
        &&& forall|j: int| 0 <= j < before.len() && j != i ==> after[j] == before[j]
    } else {
        &&& after.len() == before.len() + 1
        &&& after[before.len() as int].0@ == k
        &&& after[before.len() as int].1 == v
        &&& forall|j: int| 0 <= j < before.len() ==> after[j] == before[j]
    }
}

/// Setting a key keeps keys unique, makes the key map to the new value, and
/// leaves every other key's value as it was.
pub proof fn lemma_members_inserted(before: Members, k: Seq<char>, v: JsonValue, after: Members)
    requires
        unique_keys(before),
        members_inserted(before, k, v, after),
    ensures
        unique_keys(after),
        get_member(after, k) == Some(v),
        forall|k2: Seq<char>| k2 != k ==> get_member(after, k2) == get_member(before, k2),
{
    let r = after;
    let m = before;
    if has_key(m, k) {
        let i = key_index(m, k);
        assert forall|a: int, b: int| 0 <= a < b < r.len() implies #[trigger] r[a].0@ != #[trigger] r[b].0@ by {
            if a == i {
                assert(m[b].0@ != m[i].0@);
            } else if b == i {
                assert(m[a].0@ != m[i].0@);
            }
        }
        assert forall|k2: Seq<char>| k2 != k implies get_member(r, k2) == get_member(m, k2) by {
            if has_key(m, k2) {
                let j = key_index(m, k2);
                assert(r[j].0@ == k2);
                assert(has_key(r, k2));
                let jr = key_index(r, k2);
                assert(jr == j);
            } else {
                if has_key(r, k2) {
                    let jr = key_index(r, k2);
                    assert(m[jr].0@ == k2);
                }
            }
        }
        assert(has_key(r, k));
        assert(key_index(r, k) == i);
    } else {
        let n = m.len() as int;
        assert forall|a: int, b: int| 0 <= a < b < r.len() implies #[trigger] r[a].0@ != #[trigger] r[b].0@ by {
            if b == n {
                assert(m[a].0@ != k);
            }
        }
        assert(has_key(r, k));
        assert(key_index(r, k) == n);
        assert forall|k2: Seq<char>| k2 != k implies get_member(r, k2) == get_member(m, k2) by {
            if has_key(m, k2) {
                let j = key_index(m, k2);
                assert(r[j].0@ == k2);
                assert(has_key(r, k2));
                assert(key_index(r, k2) == j);
            } else {
                if has_key(r, k2) {
                    let jr = key_index(r, k2);
                    assert(jr != n);
                    assert(m[jr].0@ == k2);
                }
            }
        }
    }
}

/// Sets member `key` of an object to `value`, as inserting into a JSON map
/// does.
pub fn insert_member(members: &mut Vec<(String, JsonValue)>, key: String, value: JsonValue)
    requires
        unique_keys(old(members)@),
    ensures
        members_inserted(old(members)@, key@, value, final(members)@),
        unique_keys(final(members)@),
        has_key(old(members)@, key@) ==> final(members)@ == old(members)@.update(
            key_index(old(members)@, key@),
            (key, value),
        ),
        !has_key(old(members)@, key@) ==> final(members)@ == old(members)@.push((key, value)),
{
    let ghost start = members@;
    let ghost k = key@;
    let ghost v = value;
    let mut i: usize = 0;
    while i < members.len()
        invariant
            members@ == start,
            start == old(members)@,
            k == key@,
            v == value,
            unique_keys(start),
            i <= members.len(),
            forall|j: int| 0 <= j < i ==> #[trigger] members@[j].0@ != k,
        decreases members.len() - i,
    {
        if members[i].0 == key {
            proof {
                assert(has_key(start, k));
                assert(key_index(start, k) == i as int);
            }
            members.set(i, (key, value));
            proof {
                lemma_members_inserted(start, k, v, members@);
            }
            return;
        }
        i += 1;
    }
    proof {
        if has_key(start, k) {
            let j = key_index(start, k);
            assert(start[j].0@ == k);
        }
    }
    members.push((key, value));
    proof {
        lemma_members_inserted(start, k, v, members@);
    }
}

/// An object with the single member `key: value`.
pub fn single_member_object(key: String, value: JsonValue) -> (r: JsonValue)
    ensures
        r matches JsonValue::Object(m) && m@ == seq![(key, value)],
{
    let mut members: Vec<(String, JsonValue)> = Vec::new();
    members.push((key, value));
    proof {
        assert(members@ =~= seq![(key, value)]);
    }
    JsonValue::Object(members)
}

} // verus!
