//! The errors of a resource operation.
use vstd::prelude::*;

verus! {

/// A response body that does not have the shape of the expected resource.
#[derive(Debug)]
pub struct SchemaMismatch {
    /// The resource that was being decoded.
    pub resource: String,
    /// The path of the offending member, its segments joined by `.`; empty
    /// where the value itself has the wrong shape.
    pub field: String,
}

/// The error payload of a response whose status is not a success.
#[derive(Debug)]
pub struct ApiError {
    pub status: u16,
    /// The error's `type` member.
    pub kind: String,
    pub message: String,
    pub code: Option<String>,
    /// The request parameter that the server named, if any.
    pub param: Option<String>,
}

/// Why a resource operation failed.
#[derive(Debug)]
pub enum Error {
    /// The transport could not deliver the request or its response.
    Transport(String),
    /// The response body did not match the expected shape.
    SchemaMismatch(SchemaMismatch),
    /// The server answered with an error status and payload.
    Api(ApiError),
    /// A request could not be written out.
    Serialization(String),
}

/// The field path of a mismatch found at `inner` within the member `key`.
pub open spec fn nested_path(key: Seq<char>, inner: Seq<char>) -> Seq<char> {
    if inner.len() == 0 {
        key
    } else {
        key + seq!['.'] + inner
    }
}

/// Reports a mismatch found while decoding the member `key` of `resource`.
pub fn mismatch_at(resource: &str, key: &str, inner: &SchemaMismatch) -> (e: SchemaMismatch)
    ensures
        e.resource@ == resource@,
        e.field@ == nested_path(key@, inner.field@),
{
    let field = if inner.field.as_str().unicode_len() == 0 {
        String::from_str(key)
    } else {
        let mut f = String::from_str(key);
        f.append(".");
        f.append(inner.field.as_str());
        proof {
            reveal_strlit(".");
        }
        f
    };
    SchemaMismatch { resource: String::from_str(resource), field }
}

} // verus!
