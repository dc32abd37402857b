//! One page of a list of resources.
use vstd::prelude::*;
use crate::decode::{bool_at, opt_str, opt_str_at, req_bool, Decode};
use crate::error::{mismatch_at, nested_path, SchemaMismatch};
use crate::json::{member, take_member, Json};

verus! {

/// One page of resources, in the order the server sent them, with what is
/// needed to ask for the next page.
#[derive(Debug)]
pub struct List<T> {
    pub data: Vec<T>,
    /// Whether the server holds more resources after this page.
    pub has_more: bool,
    /// The path that the page was listed from.
    pub url: Option<String>,
}

/// Whether every element of `items` has the shape of a `T`.
pub open spec fn all_accepted<T: Decode>(items: Seq<Json>) -> bool {
    forall|i: int| 0 <= i < items.len() ==> T::accepts(#[trigger] items[i])
}

/// Whether `data` is what decoding each element of `items` gives, in order.
pub open spec fn all_decoded<T: Decode>(items: Seq<Json>, data: Seq<T>) -> bool {
    &&& data.len() == items.len()
    &&& forall|i: int| 0 <= i < items.len() ==> T::decodes_to(#[trigger] items[i], data[i])
}

/// The mismatch path of the first element, from index `i` on, that does
/// not have the shape of a `T`.
pub open spec fn items_mismatch<T: Decode>(items: Seq<Json>, i: int) -> Seq<char>
    decreases items.len() - i,
{
    if i < 0 || i >= items.len() {
        Seq::empty()
    } else if !T::accepts(items[i]) {
        T::mismatch_path(items[i])
    } else {
        items_mismatch::<T>(items, i + 1)
    }
}

/// Decodes each element of a page's `data` array, in order.
fn decode_items<T: Decode>(elems: Vec<Json>) -> (r: Result<Vec<T>, SchemaMismatch>)
    ensures
        r is Ok <==> all_accepted::<T>(elems@),
        r matches Ok(data) ==> all_decoded(elems@, data@),
        r matches Err(e) ==> e.resource@ == "list"@ && e.field@ == nested_path(
            "data"@,
            items_mismatch::<T>(elems@, 0),
        ),
{
    let ghost orig = elems@;
    let mut items = elems;
    let mut out: Vec<T> = Vec::new();
    let mut i: usize = 0;
    while i < items.len()
        invariant
            orig == elems@,
            items@.len() == orig.len(),
            i <= orig.len(),
            out@.len() == i,
            forall|k: int| i <= k < orig.len() ==> items@[k] == orig[k],
            forall|k: int| 0 <= k < i ==> T::accepts(#[trigger] orig[k]),
            forall|k: int| 0 <= k < i ==> T::decodes_to(#[trigger] orig[k], out@[k]),
            items_mismatch::<T>(orig, 0) == items_mismatch::<T>(orig, i as int),
        decreases orig.len() - i,
    {
        let mut slot = Json::Null;
        items.set_and_swap(i, &mut slot);
        match T::decode(slot) {
            Ok(v) => {
                out.push(v);
                assert(items_mismatch::<T>(orig, i as int) == items_mismatch::<T>(
                    orig,
                    i + 1,
                ));
            },
            Err(inner) => {
                assert(!T::accepts(orig[i as int]));
                return Err(mismatch_at("list", "data", &inner));
            },
        }
        i = i + 1;
    }
    Ok(out)
}

fn root_mismatch() -> (e: SchemaMismatch)
    ensures
        e.resource@ == "list"@,
        e.field@ == Seq::<char>::empty(),
{
    SchemaMismatch { resource: String::from_str("list"), field: String::new() }
}

impl<T: Decode> Decode for List<T> {
    /// An object whose `data` is an array of `T`s, with a boolean
    /// `has_more` and an optional string `url`.
    open spec fn accepts(j: Json) -> bool {
        match j {
            Json::Object(f) => match member(f@, "data"@) {
                Some(Json::Array(items)) => {
                    &&& all_accepted::<T>(items@)
                    &&& bool_at(f@, "has_more"@) is Some
                    &&& opt_str_at(f@, "url"@) is Some
                },
                _ => false,
            },
            _ => false,
        }
    }

    open spec fn decodes_to(j: Json, v: List<T>) -> bool {
        match j {
            Json::Object(f) => match member(f@, "data"@) {
                Some(Json::Array(items)) => {
                    &&& all_decoded(items@, v.data@)
                    &&& bool_at(f@, "has_more"@) == Some(v.has_more)
                    &&& opt_str_at(f@, "url"@) == Some(v.url)
                },
                _ => false,
            },
            _ => false,
        }
    }

    open spec fn resource() -> Seq<char> {
        "list"@
    }

    /// `has_more`, then `url`, then `data` and its elements, in order.
    open spec fn mismatch_path(j: Json) -> Seq<char> {
        match j {
            Json::Object(f) => if bool_at(f@, "has_more"@) is None {
                "has_more"@
            } else if opt_str_at(f@, "url"@) is None {
                "url"@
            } else {
                match member(f@, "data"@) {
                    Some(Json::Array(items)) => nested_path("data"@, items_mismatch::<T>(items@, 0)),
                    _ => "data"@,
                }
            },
            _ => Seq::empty(),
        }
    }

    fn decode(j: Json) -> (r: Result<List<T>, SchemaMismatch>) {
        match j {
            Json::Object(fields) => {
                let mut fields = fields;
                let has_more = match req_bool(&fields, "has_more", "list") {
                    Ok(b) => b,
                    Err(e) => {
                        return Err(e);
                    },
                };
                let url = match opt_str(&fields, "url", "list") {
                    Ok(u) => u,
                    Err(e) => {
                        return Err(e);
                    },
                };
                let ghost f0 = fields@;
                match take_member(&mut fields, "data") {
                    Some(Json::Array(items)) => match decode_items::<T>(items) {
                        Ok(data) => Ok(List { data, has_more, url }),
                        Err(e) => Err(e),
                    },
                    _ => {
                        proof {
                            assert(!(member(f0, "data"@) matches Some(Json::Array(_))));
                        }
                        Err(SchemaMismatch {
                            resource: String::from_str("list"),
                            field: String::from_str("data"),
                        })
                    },
                }
            },
            _ => Err(root_mismatch()),
        }
    }
}

impl<T> List<T> {
    /// The number of resources on the page.
    pub fn len(&self) -> (r: usize)
        ensures
            r == self.data@.len(),
    {
        self.data.len()
    }
}

/// A page whose `data` array is empty and whose `has_more` is false decodes,
/// whatever the resource type, and always to an empty last page.
pub proof fn lemma_empty_page<T: Decode>(f: Vec<(String, Json)>, items: Vec<Json>)
    requires
        member(f@, "data"@) == Some(Json::Array(items)),
        items@.len() == 0,
        bool_at(f@, "has_more"@) == Some(false),
        opt_str_at(f@, "url"@) is Some,
    ensures
        List::<T>::accepts(Json::Object(f)),
        forall|v: List<T>|
            #[trigger] List::<T>::decodes_to(Json::Object(f), v) ==> v.data@.len() == 0
                && !v.has_more,
{
}

} // verus!
