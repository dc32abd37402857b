//! Writing request parameters as JSON objects, leaving unset members out.
use vstd::prelude::*;
use crate::json::{member, member_from, Json};
use crate::wire::{items_writable, lemma_items_push, lemma_values_push, values_writable, writable_to};

verus! {

/// Appending a member whose name is not yet present adds that one name.
proof fn lemma_member_from_push(f: Seq<(String, Json)>, m: (String, Json), k: Seq<char>, i: int)
    requires
        0 <= i <= f.len(),
    ensures
        member_from(f.push(m), k, i) == (if member_from(f, k, i) is Some {
            member_from(f, k, i)
        } else if m.0@ == k {
            Some(m.1)
        } else {
            None
        }),
    decreases f.len() - i,
{
    if i < f.len() {
        assert(f.push(m)[i] == f[i]);
        lemma_member_from_push(f, m, k, i + 1);
    } else {
        assert(f.push(m)[i] == m);
        assert(member_from(f.push(m), k, i + 1) is None);
    }
}

/// Whether an optional member value, if any, can be written at `depth`.
pub open spec fn opt_writable(v: Option<Json>, depth: nat) -> bool {
    match v {
        Some(x) => writable_to(x, depth),
        None => true,
    }
}

/// Adds the member `key` when `v` holds a value; the name must be new.
pub fn put(f: &mut Vec<(String, Json)>, key: &str, v: Option<Json>)
    requires
        member(old(f)@, key@) is None,
    ensures
        final(f)@.len() == old(f)@.len() + (if v is Some { 1int } else { 0int }),
        member(final(f)@, key@) == v,
        forall|k: Seq<char>| k != key@ ==> #[trigger] member(final(f)@, k) == member(old(f)@, k),
        forall|d: nat|
            #[trigger] values_writable(final(f)@, d, final(f)@.len() as int) == (values_writable(
                old(f)@,
                d,
                old(f)@.len() as int,
            ) && opt_writable(v, d)),
{
    match v {
        Some(x) => {
            let ghost before = f@;
            let ghost x0 = x;
            f.push((String::from_str(key), x));
            proof {
                assert forall|d: nat| #[trigger] values_writable(f@, d, f@.len() as int) == (
                values_writable(before, d, before.len() as int) && opt_writable(v, d)) by {
                    lemma_values_push(before, f@.last(), d, before.len() as int);
                    assert(f@ == before.push(f@.last()));
                }
                lemma_member_from_push(before, f@.last(), key@, 0);
                assert forall|k: Seq<char>| k != key@ implies #[trigger] member(f@, k) == member(
                    before,
                    k,
                ) by {
                    lemma_member_from_push(before, f@.last(), k, 0);
                }
            }
        },
        None => {},
    }
}

/// A string parameter as a JSON string.
pub open spec fn str_json(o: Option<String>) -> Option<Json> {
    match o {
        Some(s) => Some(Json::Str(s)),
        None => None,
    }
}

/// An integer parameter as a JSON integer.
pub open spec fn int_json(o: Option<i64>) -> Option<Json> {
    match o {
        Some(n) => Some(Json::Int(n)),
        None => None,
    }
}

/// A boolean parameter as a JSON boolean.
pub open spec fn bool_json(o: Option<bool>) -> Option<Json> {
    match o {
        Some(b) => Some(Json::Bool(b)),
        None => None,
    }
}

/// A decimal parameter, given as its text, as a JSON number.
pub open spec fn decimal_json(o: Option<String>) -> Option<Json> {
    match o {
        Some(t) => Some(Json::Decimal(t)),
        None => None,
    }
}

/// A string parameter, when set, as a JSON string.
pub fn str_param(o: &Option<String>) -> (r: Option<Json>)
    ensures
        r == str_json(*o),
{
    match o {
        Some(s) => Some(Json::Str(s.clone())),
        None => None,
    }
}

/// An integer parameter, when set, as a JSON integer.
pub fn int_param(o: Option<i64>) -> (r: Option<Json>)
    ensures
        r == int_json(o),
{
    match o {
        Some(n) => Some(Json::Int(n)),
        None => None,
    }
}

/// A boolean parameter, when set, as a JSON boolean.
pub fn bool_param(o: Option<bool>) -> (r: Option<Json>)
    ensures
        r == bool_json(o),
{
    match o {
        Some(b) => Some(Json::Bool(b)),
        None => None,
    }
}

/// A decimal parameter, when set, as a JSON number holding its text.
pub fn decimal_param(o: &Option<String>) -> (r: Option<Json>)
    ensures
        r == decimal_json(*o),
{
    match o {
        Some(t) => Some(Json::Decimal(t.clone())),
        None => None,
    }
}

/// Whether `j` is the object of string members listed in `m`, in order.
pub open spec fn is_map_json(j: Json, m: Seq<(String, String)>) -> bool {
    match j {
        Json::Object(f) => {
            &&& f@.len() == m.len()
            &&& forall|i: int|
                0 <= i < m.len() ==> (#[trigger] f@[i]).0 == m[i].0 && f@[i].1 == Json::Str(m[i].1)
        },
        _ => false,
    }
}

/// Whether the member `j` is what an optional map parameter writes.
pub open spec fn map_param_json(j: Option<Json>, o: Option<Vec<(String, String)>>) -> bool {
    match o {
        Some(m) => j matches Some(x) && is_map_json(x, m@),
        None => j is None,
    }
}

/// A map parameter as a JSON object of strings.
pub fn map_param(o: &Option<Vec<(String, String)>>) -> (r: Option<Json>)
    ensures
        map_param_json(r, *o),
        forall|d: nat| d >= 1 ==> #[trigger] opt_writable(r, d),
{
    match o {
        Some(m) => {
            let mut out: Vec<(String, Json)> = Vec::new();
            let mut i: usize = 0;
            while i < m.len()
                invariant
                    i <= m@.len(),
                    out@.len() == i,
                    forall|k: int|
                        0 <= k < i ==> (#[trigger] out@[k]).0 == m@[k].0 && out@[k].1 == Json::Str(
                            m@[k].1,
                        ),
                    forall|d: nat| #[trigger] values_writable(out@, d, i as int),
                decreases m@.len() - i,
            {
                let ghost before = out@;
                out.push((m[i].0.clone(), Json::Str(m[i].1.clone())));
                proof {
                    assert forall|d: nat| #[trigger] values_writable(out@, d, i + 1) by {
                        lemma_values_push(before, out@.last(), d, i as int);
                        assert(out@ == before.push(out@.last()));
                        assert(values_writable(before, d, i as int));
                        assert(out@[i as int].1 is Str);
                        assert(writable_to(out@[i as int].1, d));
                    }
                }
                i = i + 1;
            }
            proof {
                assert forall|d: nat| d >= 1 implies #[trigger] opt_writable(
                    Some(Json::Object(out)),
                    d,
                ) by {
                    assert(values_writable(out@, (d - 1) as nat, out@.len() as int));
                }
            }
            Some(Json::Object(out))
        },
        None => None,
    }
}

/// Whether `j` is the array of the strings in `v`, in order.
pub open spec fn is_str_array(j: Json, v: Seq<String>) -> bool {
    match j {
        Json::Array(items) => {
            &&& items@.len() == v.len()
            &&& forall|i: int| 0 <= i < v.len() ==> #[trigger] items@[i] == Json::Str(v[i])
        },
        _ => false,
    }
}

/// Whether the member `j` is what an optional list of strings writes.
pub open spec fn str_list_param_json(j: Option<Json>, o: Option<Vec<String>>) -> bool {
    match o {
        Some(v) => j matches Some(x) && is_str_array(x, v@),
        None => j is None,
    }
}

/// A list of strings as a JSON array.
pub fn str_list_param(o: &Option<Vec<String>>) -> (r: Option<Json>)
    ensures
        str_list_param_json(r, *o),
        forall|d: nat| d >= 1 ==> #[trigger] opt_writable(r, d),
{
    match o {
        Some(v) => {
            let mut out: Vec<Json> = Vec::new();
            let mut i: usize = 0;
            while i < v.len()
                invariant
                    i <= v@.len(),
                    out@.len() == i,
                    forall|k: int| 0 <= k < i ==> #[trigger] out@[k] == Json::Str(v@[k]),
                    forall|d: nat| #[trigger] items_writable(out@, d, i as int),
                decreases v@.len() - i,
            {
                let ghost before = out@;
                out.push(Json::Str(v[i].clone()));
                proof {
                    assert forall|d: nat| #[trigger] items_writable(out@, d, i + 1) by {
                        lemma_items_push(before, out@.last(), d, i as int);
                        assert(out@ == before.push(out@.last()));
                        assert(items_writable(before, d, i as int));
                        assert(out@[i as int] is Str);
                        assert(writable_to(out@[i as int], d));
                    }
                }
                i = i + 1;
            }
            proof {
                assert forall|d: nat| d >= 1 implies #[trigger] opt_writable(
                    Some(Json::Array(out)),
                    d,
                ) by {
                    assert(items_writable(out@, (d - 1) as nat, out@.len() as int));
                }
            }
            Some(Json::Array(out))
        },
        None => None,
    }
}

} // verus!
