//! References that the server sends either as an identifier or as the
//! embedded resource.
use vstd::prelude::*;
use crate::decode::Decode;
use crate::error::SchemaMismatch;
use crate::json::Json;

verus! {

/// A bare identifier, or the resource itself when it was expanded.
#[derive(Debug)]
pub enum Expandable<T> {
    Identifier(String),
    Object(T),
}

impl<T: Decode> Decode for Expandable<T> {
    /// A string is an identifier; anything else must be a `T`.
    open spec fn accepts(j: Json) -> bool {
        j is Str || T::accepts(j)
    }

    open spec fn decodes_to(j: Json, v: Expandable<T>) -> bool {
        match j {
            Json::Str(s) => v == Expandable::<T>::Identifier(s),
            _ => v matches Expandable::Object(t) && T::decodes_to(j, t),
        }
    }

    open spec fn resource() -> Seq<char> {
        T::resource()
    }

    open spec fn mismatch_path(j: Json) -> Seq<char> {
        T::mismatch_path(j)
    }

    fn decode(j: Json) -> (r: Result<Expandable<T>, SchemaMismatch>) {
        match j {
            Json::Str(s) => Ok(Expandable::Identifier(s)),
            other => match T::decode(other) {
                Ok(t) => Ok(Expandable::Object(t)),
                Err(e) => Err(e),
            },
        }
    }
}

impl<T> Expandable<T> {
    /// Whether the reference came as an identifier.
    pub fn is_identifier(&self) -> (r: bool)
        ensures
            r == (self is Identifier),
    {
        match self {
            Expandable::Identifier(_) => true,
            Expandable::Object(_) => false,
        }
    }
}

/// A JSON string decodes as an expandable reference to the identifier that
/// it holds, whatever the referenced type.
pub proof fn lemma_string_is_identifier<T: Decode>(s: String, v: Expandable<T>)
    requires
        Expandable::<T>::decodes_to(Json::Str(s), v),
    ensures
        v == Expandable::<T>::Identifier(s),
{
}

/// A JSON value that is not a string decodes as an expandable reference
/// exactly when it decodes as the referenced type, and then to that same
/// value, embedded.
pub proof fn lemma_object_is_embedded<T: Decode>(j: Json, t: T)
    requires
        !(j is Str),
    ensures
        Expandable::<T>::accepts(j) == T::accepts(j),
        Expandable::<T>::decodes_to(j, Expandable::Object(t)) == T::decodes_to(j, t),
{
}

} // verus!
