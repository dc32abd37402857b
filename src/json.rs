//! The library's model of a JSON value as it travels over the wire.
use vstd::prelude::*;

verus! {

/// A JSON value. Integers that fit an `i64` are held as such; every other
/// number keeps its decimal text. An object is its list of members; where a
/// name repeats, lookups read the first member of that name, while
/// `write_json` keeps the last, so objects meant for writing hold each name
/// once.
#[derive(Debug)]
pub enum Json {
    Null,
    Bool(bool),
    Int(i64),
    Decimal(String),
    Str(String),
    Array(Vec<Json>),
    Object(Vec<(String, Json)>),
}

/// The value of the first member named `key` at index `i` or later.
pub open spec fn member_from(fields: Seq<(String, Json)>, key: Seq<char>, i: int) -> Option<Json>
    decreases fields.len() - i,
{
    if i < 0 || i >= fields.len() {
        None
    } else if fields[i].0@ == key {
        Some(fields[i].1)
    } else {
        member_from(fields, key, i + 1)
    }
}

/// The value of the first member named `key`, if any.
pub open spec fn member(fields: Seq<(String, Json)>, key: Seq<char>) -> Option<Json> {
    member_from(fields, key, 0)
}

/// What a JSON value holds under `key`: nothing unless it is an object.
pub open spec fn spec_get(j: Json, key: Seq<char>) -> Option<Json> {
    match j {
        Json::Object(fields) => member(fields@, key),
        _ => None,
    }
}

/// Finds the first member named `key` in a list of object members.
pub fn find_member<'a>(fields: &'a Vec<(String, Json)>, key: &str) -> (r: Option<&'a Json>)
    ensures
        match r {
            Some(v) => member(fields@, key@) == Some(*v),
            None => member(fields@, key@) is None,
        },
{
    let wanted = String::from_str(key);
    let mut i: usize = 0;
    while i < fields.len()
        invariant
            i <= fields@.len(),
            wanted@ == key@,
            member(fields@, key@) == member_from(fields@, key@, i as int),
        decreases fields@.len() - i,
    {
        if fields[i].0 == wanted {
            return Some(&fields[i].1);
        }
        i = i + 1;
    }
    None
}

/// Two member lists that differ only in the value of a member named `key`
/// agree on every other name.
proof fn lemma_member_from_other(
    before: Seq<(String, Json)>,
    after: Seq<(String, Json)>,
    i: int,
    key: Seq<char>,
    other: Seq<char>,
    j: int,
)
    requires
        after.len() == before.len(),
        0 <= i < before.len(),
        before[i].0@ == key,
        after[i].0@ == key,
        other != key,
        forall|m: int| 0 <= m < before.len() && m != i ==> after[m] == before[m],
    ensures
        member_from(after, other, j) == member_from(before, other, j),
    decreases before.len() - j,
{
    if 0 <= j < before.len() {
        lemma_member_from_other(before, after, i, key, other, j + 1);
    }
}

/// Moves the value of the first member named `key` out of a member list,
/// leaving `null` in its place; every other name keeps its value.
pub fn take_member(fields: &mut Vec<(String, Json)>, key: &str) -> (r: Option<Json>)
    ensures
        r == member(old(fields)@, key@),
        final(fields)@.len() == old(fields)@.len(),
        forall|other: Seq<char>|
            other != key@ ==> #[trigger] member(final(fields)@, other) == member(
                old(fields)@,
                other,
            ),
{
    let wanted = String::from_str(key);
    let mut i: usize = 0;
    while i < fields.len()
        invariant
            i <= fields@.len(),
            wanted@ == key@,
            fields@ == old(fields)@,
            member(fields@, key@) == member_from(fields@, key@, i as int),
        decreases fields@.len() - i,
    {
        if fields[i].0 == wanted {
            let ghost before = fields@;
            let mut slot: (String, Json) = (fields[i].0.clone(), Json::Null);
            fields.set_and_swap(i, &mut slot);
            proof {
                assert forall|other: Seq<char>| other != key@ implies #[trigger] member(
                    fields@,
                    other,
                ) == member(before, other) by {
                    lemma_member_from_other(before, fields@, i as int, key@, other, 0);
                }
            }
            return Some(slot.1);
        }
        i = i + 1;
    }
    None
}

impl Json {
    /// The member named `key` of an object; `None` for a missing member or
    /// for a value that is not an object.
    pub fn get(&self, key: &str) -> (r: Option<&Json>)
        ensures
            match r {
                Some(v) => spec_get(*self, key@) == Some(*v),
                None => spec_get(*self, key@) is None,
            },
    {
        match self {
            Json::Object(fields) => find_member(fields, key),
            _ => None,
        }
    }
}

} // verus!
