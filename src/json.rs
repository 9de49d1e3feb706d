//! A JSON document as plain values, and lookup of an object's members.
use vstd::prelude::*;

verus! {

/// A JSON value. Numbers keep their text, since the configuration reads none.
#[derive(Debug)]
pub enum JsonValue {
    Null,
    Bool(bool),
    Number(String),
    Str(String),
    Array(Vec<JsonValue>),
    Object(Vec<(String, JsonValue)>),
}

/// `i` is the first position of `members` whose name is `key`.
pub open spec fn is_first_key(members: Seq<(String, JsonValue)>, key: Seq<char>, i: int) -> bool {
    &&& 0 <= i < members.len()
    &&& members[i].0@ == key
    &&& forall|j: int| 0 <= j < i ==> #[trigger] members[j].0@ != key
}

/// The value of the first member named `key`, if there is one.
pub open spec fn member(members: Seq<(String, JsonValue)>, key: Seq<char>) -> Option<JsonValue> {
    if exists|i: int| is_first_key(members, key, i) {
        Some(members[choose|i: int| is_first_key(members, key, i)].1)
    } else {
        None
    }
}

/// Position of the first member named `key`, if there is one.
pub fn find_member(members: &Vec<(String, JsonValue)>, key: &String) -> (r: Option<usize>)
    ensures
        match r {
            Some(i) => is_first_key(members@, key@, i as int) && member(members@, key@) == Some(
                members@[i as int].1,
            ),
            None => member(members@, key@) is None,
        },
{
    let mut i: usize = 0;
    while i < members.len()
        invariant
            i <= members@.len(),
            forall|j: int| 0 <= j < i ==> #[trigger] members@[j].0@ != key@,
        decreases members@.len() - i,
    {
        if members[i].0 == *key {
            proof {
                assert(is_first_key(members@, key@, i as int));
                let k = choose|k: int| is_first_key(members@, key@, k);
                if k < i {
                    assert(members@[k].0@ != key@);
                } else if k > i {
                    assert(members@[i as int].0@ != key@);
                }
            }
            return Some(i);
        }
        i = i + 1;
    }
    proof {
        if exists|k: int| is_first_key(members@, key@, k) {
            let k = choose|k: int| is_first_key(members@, key@, k);
            assert(members@[k].0@ != key@);
        }
    }
    None
}

} // verus!
