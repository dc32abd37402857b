//! Decoding resource records from JSON values, member by member.
use vstd::prelude::*;
use crate::error::{mismatch_at, nested_path, SchemaMismatch};
use crate::json::{find_member, member, take_member, Json};

verus! {

/// A type that can be read from a JSON value.
pub trait Decode: Sized {
    /// Whether `j` has the shape of this type.
    spec fn accepts(j: Json) -> bool;

    /// Whether `v` is what decoding `j` gives.
    spec fn decodes_to(j: Json, v: Self) -> bool;

    /// The resource that a mismatch names.
    spec fn resource() -> Seq<char>;

    /// The path of the first member, in decoding order, that does not have
    /// its shape; empty where `j` itself has the wrong shape.
    spec fn mismatch_path(j: Json) -> Seq<char>;

    fn decode(j: Json) -> (r: Result<Self, SchemaMismatch>)
        ensures
            r is Ok <==> Self::accepts(j),
            r matches Ok(v) ==> Self::decodes_to(j, v),
            r matches Err(e) ==> e.resource@ == Self::resource() && e.field@
                == Self::mismatch_path(j);
}

/// A raw JSON value decodes to itself.
impl Decode for Json {
    open spec fn accepts(j: Json) -> bool {
        true
    }

    open spec fn decodes_to(j: Json, v: Json) -> bool {
        v == j
    }

    open spec fn resource() -> Seq<char> {
        Seq::empty()
    }

    open spec fn mismatch_path(j: Json) -> Seq<char> {
        Seq::empty()
    }

    fn decode(j: Json) -> (r: Result<Json, SchemaMismatch>) {
        Ok(j)
    }
}

/// The text held by a string member.
pub open spec fn str_at(f: Seq<(String, Json)>, key: Seq<char>) -> Option<String> {
    match member(f, key) {
        Some(Json::Str(s)) => Some(s),
        _ => None,
    }
}

/// The integer held by an integer member.
pub open spec fn int_at(f: Seq<(String, Json)>, key: Seq<char>) -> Option<i64> {
    match member(f, key) {
        Some(Json::Int(n)) => Some(n),
        _ => None,
    }
}

/// The truth value held by a boolean member.
pub open spec fn bool_at(f: Seq<(String, Json)>, key: Seq<char>) -> Option<bool> {
    match member(f, key) {
        Some(Json::Bool(b)) => Some(b),
        _ => None,
    }
}

/// An optional string member: absent and `null` read as `Some(None)`, a
/// member of another kind as `None`.
pub open spec fn opt_str_at(f: Seq<(String, Json)>, key: Seq<char>) -> Option<Option<String>> {
    match member(f, key) {
        None => Some(None),
        Some(Json::Null) => Some(None),
        Some(Json::Str(s)) => Some(Some(s)),
        _ => None,
    }
}

/// An optional integer member, read as `opt_str_at` reads a string.
pub open spec fn opt_int_at(f: Seq<(String, Json)>, key: Seq<char>) -> Option<Option<i64>> {
    match member(f, key) {
        None => Some(None),
        Some(Json::Null) => Some(None),
        Some(Json::Int(n)) => Some(Some(n)),
        _ => None,
    }
}

/// An optional member that must fit an `i32`.
pub open spec fn opt_i32_at(f: Seq<(String, Json)>, key: Seq<char>) -> Option<Option<i32>> {
    match member(f, key) {
        None => Some(None),
        Some(Json::Null) => Some(None),
        Some(Json::Int(n)) => if i32::MIN <= n <= i32::MAX {
            Some(Some(n as i32))
        } else {
            None
        },
        _ => None,
    }
}

/// An optional number member, kept as the JSON number it is.
pub open spec fn opt_number_at(f: Seq<(String, Json)>, key: Seq<char>) -> Option<Option<Json>> {
    match member(f, key) {
        None => Some(None),
        Some(Json::Null) => Some(None),
        Some(Json::Int(n)) => Some(Some(Json::Int(n))),
        Some(Json::Decimal(t)) => Some(Some(Json::Decimal(t))),
        _ => None,
    }
}

/// The mismatch that names the member `key` of `resource`.
pub open spec fn names(e: SchemaMismatch, resource: Seq<char>, key: Seq<char>) -> bool {
    e.resource@ == resource && e.field@ == key
}

fn missing(resource: &str, key: &str) -> (e: SchemaMismatch)
    ensures
        names(e, resource@, key@),
{
    SchemaMismatch { resource: String::from_str(resource), field: String::from_str(key) }
}

/// Reads a required string member.
pub fn req_str(f: &Vec<(String, Json)>, key: &str, resource: &str) -> (r: Result<
    String,
    SchemaMismatch,
>)
    ensures
        match str_at(f@, key@) {
            Some(s) => r == Ok::<String, SchemaMismatch>(s),
            None => r matches Err(e) && names(e, resource@, key@),
        },
{
    match find_member(f, key) {
        Some(Json::Str(s)) => Ok(s.clone()),
        _ => Err(missing(resource, key)),
    }
}

/// Reads a required integer member.
pub fn req_int(f: &Vec<(String, Json)>, key: &str, resource: &str) -> (r: Result<
    i64,
    SchemaMismatch,
>)
    ensures
        match int_at(f@, key@) {
            Some(n) => r == Ok::<i64, SchemaMismatch>(n),
            None => r matches Err(e) && names(e, resource@, key@),
        },
{
    match find_member(f, key) {
        Some(Json::Int(n)) => Ok(*n),
        _ => Err(missing(resource, key)),
    }
}

/// Reads a required boolean member.
pub fn req_bool(f: &Vec<(String, Json)>, key: &str, resource: &str) -> (r: Result<
    bool,
    SchemaMismatch,
>)
    ensures
        match bool_at(f@, key@) {
            Some(b) => r == Ok::<bool, SchemaMismatch>(b),
            None => r matches Err(e) && names(e, resource@, key@),
        },
{
    match find_member(f, key) {
        Some(Json::Bool(b)) => Ok(*b),
        _ => Err(missing(resource, key)),
    }
}

/// Reads an optional string member.
pub fn opt_str(f: &Vec<(String, Json)>, key: &str, resource: &str) -> (r: Result<
    Option<String>,
    SchemaMismatch,
>)
    ensures
        match opt_str_at(f@, key@) {
            Some(v) => r == Ok::<Option<String>, SchemaMismatch>(v),
            None => r matches Err(e) && names(e, resource@, key@),
        },
{
    match find_member(f, key) {
        None => Ok(None),
        Some(Json::Null) => Ok(None),
        Some(Json::Str(s)) => Ok(Some(s.clone())),
        _ => Err(missing(resource, key)),
    }
}

/// Reads an optional integer member.
pub fn opt_int(f: &Vec<(String, Json)>, key: &str, resource: &str) -> (r: Result<
    Option<i64>,
    SchemaMismatch,
>)
    ensures
        match opt_int_at(f@, key@) {
            Some(v) => r == Ok::<Option<i64>, SchemaMismatch>(v),
            None => r matches Err(e) && names(e, resource@, key@),
        },
{
    match find_member(f, key) {
        None => Ok(None),
        Some(Json::Null) => Ok(None),
        Some(Json::Int(n)) => Ok(Some(*n)),
        _ => Err(missing(resource, key)),
    }
}

/// Reads an optional member that must fit an `i32`.
pub fn opt_i32(f: &Vec<(String, Json)>, key: &str, resource: &str) -> (r: Result<
    Option<i32>,
    SchemaMismatch,
>)
    ensures
        match opt_i32_at(f@, key@) {
            Some(v) => r == Ok::<Option<i32>, SchemaMismatch>(v),
            None => r matches Err(e) && names(e, resource@, key@),
        },
{
    match find_member(f, key) {
        None => Ok(None),
        Some(Json::Null) => Ok(None),
        Some(Json::Int(n)) => {
            if i32::MIN as i64 <= *n && *n <= i32::MAX as i64 {
                Ok(Some(*n as i32))
            } else {
                Err(missing(resource, key))
            }
        },
        _ => Err(missing(resource, key)),
    }
}

/// Reads an optional number member.
pub fn opt_number(f: &Vec<(String, Json)>, key: &str, resource: &str) -> (r: Result<
    Option<Json>,
    SchemaMismatch,
>)
    ensures
        match opt_number_at(f@, key@) {
            Some(v) => r == Ok::<Option<Json>, SchemaMismatch>(v),
            None => r matches Err(e) && names(e, resource@, key@),
        },
{
    match find_member(f, key) {
        None => Ok(None),
        Some(Json::Null) => Ok(None),
        Some(Json::Int(n)) => Ok(Some(Json::Int(*n))),
        Some(Json::Decimal(t)) => Ok(Some(Json::Decimal(t.clone()))),
        _ => Err(missing(resource, key)),
    }
}

/// Whether the member `key` is an object whose members are all strings.
pub open spec fn is_string_map_at(f: Seq<(String, Json)>, key: Seq<char>) -> bool {
    match member(f, key) {
        Some(Json::Object(m)) => forall|i: int| 0 <= i < m@.len() ==> (#[trigger] m@[i]).1 is Str,
        _ => false,
    }
}

/// Whether `v` lists the members of the string object `key`, in order.
pub open spec fn string_map_at(f: Seq<(String, Json)>, key: Seq<char>, v: Seq<(String, String)>) -> bool {
    match member(f, key) {
        Some(Json::Object(m)) => {
            &&& v.len() == m@.len()
            &&& forall|i: int|
                0 <= i < v.len() ==> (#[trigger] v[i]).0 == m@[i].0 && m@[i].1 == Json::Str(v[i].1)
        },
        _ => false,
    }
}

/// Reads a required member that maps names to strings.
pub fn string_map(f: &Vec<(String, Json)>, key: &str, resource: &str) -> (r: Result<
    Vec<(String, String)>,
    SchemaMismatch,
>)
    ensures
        r is Ok <==> is_string_map_at(f@, key@),
        r matches Ok(v) ==> string_map_at(f@, key@, v@),
        r matches Err(e) ==> names(e, resource@, key@),
{
    match find_member(f, key) {
        Some(Json::Object(m)) => {
            let mut out: Vec<(String, String)> = Vec::new();
            let mut i: usize = 0;
            while i < m.len()
                invariant
                    member(f@, key@) == Some(Json::Object(*m)),
                    i <= m@.len(),
                    out@.len() == i,
                    forall|k: int|
                        0 <= k < i ==> (#[trigger] out@[k]).0 == m@[k].0 && m@[k].1 == Json::Str(
                            out@[k].1,
                        ),
                    forall|k: int| 0 <= k < i ==> (#[trigger] m@[k]).1 is Str,
                decreases m@.len() - i,
            {
                match &m[i].1 {
                    Json::Str(s) => {
                        out.push((m[i].0.clone(), s.clone()));
                    },
                    _ => {
                        assert(!(m@[i as int].1 is Str));
                        return Err(missing(resource, key));
                    },
                }
                i = i + 1;
            }
            Ok(out)
        },
        _ => Err(missing(resource, key)),
    }
}

/// Decodes `j` as the member `key` of `resource`, naming the member in a
/// mismatch.
fn decode_member<T: Decode>(j: Json, key: &str, resource: &str) -> (r: Result<T, SchemaMismatch>)
    ensures
        r is Ok <==> T::accepts(j),
        r matches Ok(v) ==> T::decodes_to(j, v),
        r matches Err(e) ==> e.resource@ == resource@ && e.field@ == nested_path(
            key@,
            T::mismatch_path(j),
        ),
{
    match T::decode(j) {
        Ok(v) => Ok(v),
        Err(inner) => Err(mismatch_at(resource, key, &inner)),
    }
}

/// Moves the required member `key` out of `f` and decodes it as a `T`.
pub fn take_req<T: Decode>(f: &mut Vec<(String, Json)>, key: &str, resource: &str) -> (r: Result<
    T,
    SchemaMismatch,
>)
    ensures
        final(f)@.len() == old(f)@.len(),
        forall|other: Seq<char>|
            other != key@ ==> #[trigger] member(final(f)@, other) == member(old(f)@, other),
        match member(old(f)@, key@) {
            None => r matches Err(e) && names(e, resource@, key@),
            Some(j) => {
                &&& r is Ok <==> T::accepts(j)
                &&& r matches Ok(v) ==> T::decodes_to(j, v)
                &&& r matches Err(e) ==> e.resource@ == resource@ && e.field@ == nested_path(
                    key@,
                    T::mismatch_path(j),
                )
            },
        },
{
    match take_member(f, key) {
        None => Err(missing(resource, key)),
        Some(j) => decode_member(j, key, resource),
    }
}

/// Moves the optional member `key` out of `f` and decodes it as a `T`;
/// absent and `null` give `None`.
pub fn take_opt<T: Decode>(f: &mut Vec<(String, Json)>, key: &str, resource: &str) -> (r: Result<
    Option<T>,
    SchemaMismatch,
>)
    ensures
        final(f)@.len() == old(f)@.len(),
        forall|other: Seq<char>|
            other != key@ ==> #[trigger] member(final(f)@, other) == member(old(f)@, other),
        match member(old(f)@, key@) {
            None => r == Ok::<Option<T>, SchemaMismatch>(None),
            Some(Json::Null) => r == Ok::<Option<T>, SchemaMismatch>(None),
            Some(j) => {
                &&& r is Ok <==> T::accepts(j)
                &&& r matches Ok(v) ==> v matches Some(x) && T::decodes_to(j, x)
                &&& r matches Err(e) ==> e.resource@ == resource@ && e.field@ == nested_path(
                    key@,
                    T::mismatch_path(j),
                )
            },
        },
{
    match take_member(f, key) {
        None => Ok(None),
        Some(Json::Null) => Ok(None),
        Some(j) => match decode_member(j, key, resource) {
            Ok(v) => Ok(Some(v)),
            Err(e) => Err(e),
        },
    }
}

/// Whether the required member `key` is present and has the shape of a `T`.
pub open spec fn req_accepts<T: Decode>(f: Seq<(String, Json)>, key: Seq<char>) -> bool {
    match member(f, key) {
        Some(j) => T::accepts(j),
        None => false,
    }
}

/// Whether `v` is what the required member `key` decodes to.
pub open spec fn req_decodes_to<T: Decode>(f: Seq<(String, Json)>, key: Seq<char>, v: T) -> bool {
    match member(f, key) {
        Some(j) => T::decodes_to(j, v),
        None => false,
    }
}

/// Whether the optional member `key` is absent, `null`, or a `T`.
pub open spec fn opt_accepts<T: Decode>(f: Seq<(String, Json)>, key: Seq<char>) -> bool {
    match member(f, key) {
        None => true,
        Some(Json::Null) => true,
        Some(j) => T::accepts(j),
    }
}

/// Whether `v` is what the optional member `key` decodes to.
pub open spec fn opt_decodes_to<T: Decode>(
    f: Seq<(String, Json)>,
    key: Seq<char>,
    v: Option<T>,
) -> bool {
    match member(f, key) {
        None => v is None,
        Some(Json::Null) => v is None,
        Some(j) => v matches Some(x) && T::decodes_to(j, x),
    }
}

/// The members of a value that must be an object.
pub fn object_members(j: Json, resource: &str) -> (r: Result<Vec<(String, Json)>, SchemaMismatch>)
    ensures
        r is Ok <==> j is Object,
        r matches Ok(f) ==> j == Json::Object(f),
        r matches Err(e) ==> e.resource@ == resource@ && e.field@.len() == 0,
{
    match j {
        Json::Object(f) => Ok(f),
        _ => Err(SchemaMismatch { resource: String::from_str(resource), field: String::new() }),
    }
}

/// Whether a string holds the given text.
pub fn text_is(s: &String, text: &str) -> (r: bool)
    ensures
        r == (s@ == text@),
{
    *s == String::from_str(text)
}

/// The mismatch path of a required member.
pub open spec fn req_mismatch<T: Decode>(f: Seq<(String, Json)>, key: Seq<char>) -> Seq<char> {
    match member(f, key) {
        Some(j) => nested_path(key, T::mismatch_path(j)),
        None => key,
    }
}

/// The mismatch path of an optional member.
pub open spec fn opt_mismatch<T: Decode>(f: Seq<(String, Json)>, key: Seq<char>) -> Seq<char> {
    match member(f, key) {
        Some(j) => nested_path(key, T::mismatch_path(j)),
        None => Seq::empty(),
    }
}

/// A resource of a kind that this library does not model, kept as the
/// members of its JSON object.
#[derive(Debug)]
pub struct Record {
    pub members: Vec<(String, Json)>,
}

impl Decode for Record {
    /// Any object.
    open spec fn accepts(j: Json) -> bool {
        j is Object
    }

    open spec fn decodes_to(j: Json, v: Record) -> bool {
        j == Json::Object(v.members)
    }

    open spec fn resource() -> Seq<char> {
        "record"@
    }

    open spec fn mismatch_path(j: Json) -> Seq<char> {
        Seq::empty()
    }

    fn decode(j: Json) -> (r: Result<Record, SchemaMismatch>) {
        match j {
            Json::Object(members) => Ok(Record { members }),
            _ => Err(SchemaMismatch { resource: String::from_str("record"), field: String::new() }),
        }
    }
}

impl Record {
    /// The member named `key`, if any.
    pub fn get(&self, key: &str) -> (r: Option<&Json>)
        ensures
            match r {
                Some(v) => member(self.members@, key@) == Some(*v),
                None => member(self.members@, key@) is None,
            },
    {
        find_member(&self.members, key)
    }
}

} // verus!
