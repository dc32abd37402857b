//! The five resource operations: the request each one sends and how a
//! response becomes a resource or an error.
use vstd::prelude::*;
use crate::decode::{opt_str_at, str_at, Decode};
use crate::error::{ApiError, Error, SchemaMismatch};
use crate::json::{member, Json};
use crate::wire::{parse_json, writable, write_json};

verus! {

/// An HTTP method.
#[derive(Debug, Clone, Copy, PartialEq, Eq, Structural)]
pub enum Method {
    Get,
    Post,
    Delete,
}

/// The resource kinds that have a path of their own.
#[derive(Debug, Clone, Copy, PartialEq, Eq, Structural)]
pub enum UrlPath {
    Subscriptions,
    SubscriptionItems,
}

/// The base path of each resource kind, as the host configures it.
#[derive(Debug)]
pub struct PathTable {
    pub subscriptions: String,
    pub subscription_items: String,
}

impl PathTable {
    pub open spec fn spec_base(&self, kind: UrlPath) -> String {
        match kind {
            UrlPath::Subscriptions => self.subscriptions,
            UrlPath::SubscriptionItems => self.subscription_items,
        }
    }

    /// The base path of a resource kind.
    pub fn base(&self, kind: UrlPath) -> (r: &String)
        ensures
            *r == self.spec_base(kind),
    {
        match kind {
            UrlPath::Subscriptions => &self.subscriptions,
            UrlPath::SubscriptionItems => &self.subscription_items,
        }
    }
}

/// A base path followed by each segment, each after a `/`.
pub open spec fn joined(base: Seq<char>, segments: Seq<Seq<char>>) -> Seq<char>
    decreases segments.len(),
{
    if segments.len() == 0 {
        base
    } else {
        joined(base, segments.drop_last()) + seq!['/'] + segments.last()
    }
}

/// Appends each segment to a base path.
pub fn build_path(base: &String, segments: &Vec<&str>) -> (r: String)
    ensures
        r@ == joined(base@, segments@.map_values(|s: &str| s@)),
{
    let ghost views = segments@.map_values(|s: &str| s@);
    let mut path = base.clone();
    let mut i: usize = 0;
    while i < segments.len()
        invariant
            i <= segments@.len(),
            views == segments@.map_values(|s: &str| s@),
            path@ == joined(base@, views.subrange(0, i as int)),
        decreases segments@.len() - i,
    {
        path.append("/");
        path.append(segments[i]);
        proof {
            reveal_strlit("/");
            assert(views.subrange(0, i + 1).drop_last() =~= views.subrange(0, i as int));
        }
        i = i + 1;
    }
    proof {
        assert(views.subrange(0, i as int) =~= views);
    }
    path
}

/// One outbound request. A `GET` carries its parameters as a query; the
/// other methods carry them as a body.
#[derive(Debug)]
pub struct Request {
    pub method: Method,
    pub path: String,
    pub body: Option<Json>,
    pub query: Option<Json>,
}

/// What the transport brought back: a status and the body's bytes.
#[derive(Debug)]
pub struct Response {
    pub status: u16,
    pub body: Vec<u8>,
}

/// The path of one resource of a kind.
pub open spec fn item_path(paths: PathTable, kind: UrlPath, id: Seq<char>) -> Seq<char> {
    paths.spec_base(kind)@ + seq!['/'] + id
}

fn item_path_of(paths: &PathTable, kind: UrlPath, id: &str) -> (r: String)
    ensures
        r@ == item_path(*paths, kind, id@),
{
    let segments = vec![id];
    let r = build_path(paths.base(kind), &segments);
    proof {
        let views = segments@.map_values(|s: &str| s@);
        assert(segments@.len() == 1 && segments@[0] == id);
        assert(views.last() == id@);
        assert(views.drop_last() =~= Seq::<Seq<char>>::empty());
        assert(joined(paths.spec_base(kind)@, views.drop_last()) == paths.spec_base(kind)@);
    }
    r
}

/// A `POST` of `body` to the collection path.
pub fn create_request(paths: &PathTable, kind: UrlPath, body: Json) -> (r: Request)
    ensures
        r.method == Method::Post,
        r.path == paths.spec_base(kind),
        r.body == Some(body),
        r.query is None,
{
    Request { method: Method::Post, path: paths.base(kind).clone(), body: Some(body), query: None }
}

/// A `GET` of one resource, with no body.
pub fn retrieve_request(paths: &PathTable, kind: UrlPath, id: &str) -> (r: Request)
    ensures
        r.method == Method::Get,
        r.path@ == item_path(*paths, kind, id@),
        r.body is None,
        r.query is None,
{
    Request { method: Method::Get, path: item_path_of(paths, kind, id), body: None, query: None }
}

/// A `POST` of `body` to one resource.
pub fn update_request(paths: &PathTable, kind: UrlPath, id: &str, body: Json) -> (r: Request)
    ensures
        r.method == Method::Post,
        r.path@ == item_path(*paths, kind, id@),
        r.body == Some(body),
        r.query is None,
{
    Request {
        method: Method::Post,
        path: item_path_of(paths, kind, id),
        body: Some(body),
        query: None,
    }
}

/// A `DELETE` of one resource, with a body where the endpoint takes one.
pub fn delete_request(paths: &PathTable, kind: UrlPath, id: &str, body: Option<Json>) -> (r:
    Request)
    ensures
        r.method == Method::Delete,
        r.path@ == item_path(*paths, kind, id@),
        r.body == body,
        r.query is None,
{
    Request { method: Method::Delete, path: item_path_of(paths, kind, id), body, query: None }
}

/// A `GET` of the collection path with `query` as its parameters.
pub fn list_request(paths: &PathTable, kind: UrlPath, query: Json) -> (r: Request)
    ensures
        r.method == Method::Get,
        r.path == paths.spec_base(kind),
        r.body is None,
        r.query == Some(query),
{
    Request { method: Method::Get, path: paths.base(kind).clone(), body: None, query: Some(query) }
}

/// Whether a status reports success.
pub open spec fn is_success(status: u16) -> bool {
    200 <= status <= 299
}

/// The members of the `error` object of an error payload.
pub open spec fn error_members(body: Option<Json>) -> Option<Seq<(String, Json)>> {
    match body {
        Some(Json::Object(f)) => match member(f@, "error"@) {
            Some(Json::Object(g)) => Some(g@),
            _ => None,
        },
        _ => None,
    }
}

/// A string member of the `error` object; empty where there is none.
pub open spec fn error_text(body: Option<Json>, key: Seq<char>) -> Seq<char> {
    match error_members(body) {
        Some(g) => match str_at(g, key) {
            Some(s) => s@,
            None => Seq::empty(),
        },
        None => Seq::empty(),
    }
}

/// An optional string member of the `error` object.
pub open spec fn error_opt_text(body: Option<Json>, key: Seq<char>) -> Option<Seq<char>> {
    match error_members(body) {
        Some(g) => match str_at(g, key) {
            Some(s) => Some(s@),
            None => None,
        },
        None => None,
    }
}

/// The text of an optional string.
pub open spec fn opt_text(o: Option<String>) -> Option<Seq<char>> {
    match o {
        Some(s) => Some(s@),
        None => None,
    }
}

/// Whether `e` carries `status` and the payload's `error` object.
pub open spec fn reports(e: ApiError, status: u16, body: Option<Json>) -> bool {
    &&& e.status == status
    &&& e.kind@ == error_text(body, "type"@)
    &&& e.message@ == error_text(body, "message"@)
    &&& opt_text(e.code) == error_opt_text(body, "code"@)
    &&& opt_text(e.param) == error_opt_text(body, "param"@)
}

fn text_member(g: &Vec<(String, Json)>, key: &str) -> (r: Option<String>)
    ensures
        r == str_at(g@, key@),
{
    match crate::json::find_member(g, key) {
        Some(Json::Str(s)) => Some(s.clone()),
        _ => None,
    }
}

/// Reads the error payload `{"error": {"type", "message", "code"?,
/// "param"?}}` of a response; a member that is missing or not a string
/// reads as empty text or `None`.
pub fn api_error(status: u16, body: &Option<Json>) -> (e: ApiError)
    ensures
        reports(e, status, *body),
{
    let g = match body {
        Some(j) => match j.get("error") {
            Some(Json::Object(g)) => Some(g),
            _ => None,
        },
        None => None,
    };
    match g {
        Some(g) => {
            let kind = match text_member(g, "type") {
                Some(s) => s,
                None => String::new(),
            };
            let message = match text_member(g, "message") {
                Some(s) => s,
                None => String::new(),
            };
            let code = text_member(g, "code");
            let param = text_member(g, "param");
            ApiError { status, kind, message, code, param }
        },
        None => ApiError {
            status,
            kind: String::new(),
            message: String::new(),
            code: None,
            param: None,
        },
    }
}

/// What reading a response gives: on success the body decoded as an `R`,
/// or the mismatch; otherwise the server's error.
pub open spec fn response_outcome<R: Decode>(status: u16, body: Option<Json>, r: Result<R, Error>) -> bool {
    if is_success(status) {
        match body {
            Some(j) => {
                &&& r is Ok <==> R::accepts(j)
                &&& r matches Ok(v) ==> R::decodes_to(j, v)
                &&& r is Err ==> (r matches Err(Error::SchemaMismatch(e)) && e.resource@
                    == R::resource() && e.field@ == R::mismatch_path(j))
            },
            None => r matches Err(Error::SchemaMismatch(e)) && e.field@.len() == 0
                && e.resource@.len() == 0,
        }
    } else {
        r matches Err(Error::Api(e)) && reports(e, status, body)
    }
}

/// Turns a response status and its parsed body (`None` where the body was
/// not JSON) into a resource or an error.
pub fn read_response<R: Decode>(status: u16, body: Option<Json>) -> (r: Result<R, Error>)
    ensures
        response_outcome(status, body, r),
{
    if 200 <= status && status <= 299 {
        match body {
            Some(j) => match R::decode(j) {
                Ok(v) => Ok(v),
                Err(e) => Err(Error::SchemaMismatch(e)),
            },
            None => Err(
                Error::SchemaMismatch(
                    SchemaMismatch { resource: String::new(), field: String::new() },
                ),
            ),
        }
    } else {
        Err(Error::Api(api_error(status, &body)))
    }
}

/// Sends requests and brings back responses: the host's HTTP client.
pub trait Transport {
    /// Whether `sent` is what this transport may bring back for `request`,
    /// whose body is written out as `body`. A transport that states nothing
    /// of itself may bring back anything.
    open spec fn answers(&self, request: Request, body: Option<Seq<u8>>, sent: Result<Response, String>) -> bool {
        true
    }

    /// Sends `request`, whose body is written out as `body`; gives the
    /// response, or why none came back.
    fn send(&self, request: &Request, body: &Option<Vec<u8>>) -> (sent: Result<Response, String>)
        ensures
            self.answers(*request, bytes_of(*body), sent);
}

/// The bytes of an optional body.
pub open spec fn bytes_of(body: Option<Vec<u8>>) -> Option<Seq<u8>> {
    match body {
        Some(b) => Some(b@),
        None => None,
    }
}

/// Whether `r` is what one exchange of `request` with `transport` gives:
/// the request is sent once, with its body written out, and `r` reads the
/// single answer.
pub open spec fn performed<T: Transport, R: Decode>(transport: T, request: Request, r: Result<R, Error>) -> bool {
    exists|body: Option<Seq<u8>>, sent: Result<Response, String>|
        #[trigger] transport.answers(request, body, sent) && sent_outcome(sent, r)
}

/// A transport and the paths of the resources it reaches.
pub struct Client<T> {
    pub paths: PathTable,
    pub transport: T,
}

/// What an operation gives for what the transport brought back: its
/// failure unchanged, or the reading of the response's status and of what
/// its body parses to (nothing, for an empty body).
pub open spec fn sent_outcome<R: Decode>(sent: Result<Response, String>, r: Result<R, Error>) -> bool {
    match sent {
        Err(reason) => r == Err::<R, Error>(Error::Transport(reason)),
        Ok(response) => exists|body: Option<Json>|
            (response.body@.len() == 0 ==> body is None) && #[trigger] response_outcome(
                response.status,
                body,
                r,
            ),
    }
}

/// Reads what the transport brought back.
pub fn finish<R: Decode>(sent: Result<Response, String>) -> (r: Result<R, Error>)
    ensures
        sent_outcome(sent, r),
{
    match sent {
        Ok(response) => {
            let body = parse_json(response.body.as_slice());
            let r = read_response::<R>(response.status, body);
            assert(response_outcome(response.status, body, r));
            r
        },
        Err(reason) => Err(Error::Transport(reason)),
    }
}

impl<T: Transport> Client<T> {
    /// Writes out the body of one request, sends it once and reads what
    /// came back. A body that cannot be written out is a serialization
    /// error, and then nothing is sent.
    pub fn execute<R: Decode>(&self, request: &Request) -> (r: Result<R, Error>)
        ensures
            r matches Err(Error::Serialization(_)) <==> (request.body matches Some(j) && !writable(
                j,
            )),
            !(r matches Err(Error::Serialization(_))) ==> performed(self.transport, *request, r),
    {
        let body = match &request.body {
            Some(j) => match write_json(j) {
                Some(bytes) => Some(bytes),
                None => {
                    return Err(Error::Serialization(String::from_str("unwritable number")));
                },
            },
            None => None,
        };
        let sent = self.transport.send(request, &body);
        let ghost g = sent;
        let r = finish::<R>(sent);
        assert(self.transport.answers(*request, bytes_of(body), g) && sent_outcome(g, r));
        r
    }
}

} // verus!
