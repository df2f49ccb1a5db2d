//! JSON values, as far as the importer reads them.

use vstd::prelude::*;

use crate::text::str_eq;

verus! {

/// A parsed JSON value.
#[derive(Debug)]
pub enum Json {
    Null,
    Bool(bool),
    /// A number: how it is written, and its value where it is an integer that
    /// fits.
    Number { text: String, int: Option<i64> },
    Text(String),
    Array(Vec<Json>),
    /// The members of an object; no key occurs twice.
    Object(Vec<(String, Json)>),
}

/// The offset of the first member at or after `from` with the given key; the
/// number of members if there is none.
pub open spec fn member_at(members: Seq<(String, Json)>, key: Seq<char>, from: int) -> int
    decreases members.len() - from,
{
    if from >= members.len() {
        members.len() as int
    } else if members[from].0@ == key {
        from
    } else {
        member_at(members, key, from + 1)
    }
}

/// The value of the member with the given key, of an object that has one.
pub open spec fn member_of(v: Json, key: Seq<char>) -> Option<Json> {
    match v {
        Json::Object(members) => {
            let at = member_at(members@, key, 0);
            if at < members@.len() {
                Some(members@[at].1)
            } else {
                None
            }
        },
        _ => None,
    }
}

pub proof fn lemma_member_at(members: Seq<(String, Json)>, key: Seq<char>, from: int)
    requires
        0 <= from <= members.len(),
    ensures
        from <= member_at(members, key, from) <= members.len(),
        member_at(members, key, from) < members.len() ==> members[member_at(members, key, from)].0@
            == key,
        forall|j: int| from <= j < member_at(members, key, from) ==> members[j].0@ != key,
    decreases members.len() - from,
{
    if from < members.len() && members[from].0@ != key {
        lemma_member_at(members, key, from + 1);
    }
}

impl Json {
    /// The member of an object with the given key.
    pub fn get(&self, key: &str) -> (r: Option<&Json>)
        ensures
            r is Some <==> member_of(*self, key@) is Some,
            r matches Some(v) ==> member_of(*self, key@) == Some(*v),
            r matches Some(v) ==> decreases_to!(*self => *v),
    {
        match self {
            Json::Object(members) => {
                let mut i: usize = 0;
                while i < members.len()
                    invariant
                        i <= members@.len(),
                        member_at(members@, key@, i as int) == member_at(members@, key@, 0),
                        *self matches Json::Object(m) && m == *members,
                    decreases members@.len() - i,
                {
                    if str_eq(members[i].0.as_str(), key) {
                        proof {
                            let ghost v = members@[i as int].1;
                            assert(decreases_to!(*self => *members));
                            assert(decreases_to!(*members => members@));
                            assert(decreases_to!(members@ => members@[i as int]));
                            assert(decreases_to!(members@[i as int] => members@[i as int].1));
                        }
                        return Some(&members[i].1);
                    }
                    i += 1;
                }
                None
            },
            _ => None,
        }
    }
}

} // verus!
