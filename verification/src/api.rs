//! The dispatch client: building authenticated requests and decoding
//! responses, uniformly for every operation of the service.
//!
//! Each operation builds exactly one `HttpRequest`; the surrounding
//! application sends it and hands the resulting status and body text to
//! `handle_response` (for typed responses) or `handle_void` (for operations
//! judged by status alone).  The response algorithm is the same everywhere:
//! a non-success status fails with an `ApiError::Api` carrying the status
//! and the raw body; on success an empty body counts as an empty JSON
//! object; a body that does not parse or does not fit the expected shape
//! fails with an `ApiError::Decode` carrying the raw body.

pub mod api_keys;
pub mod broadcasts;
pub mod contact_properties;
pub mod contacts;
pub mod domains;
pub mod emails;
pub mod receiving;
pub mod segments;
pub mod templates;
pub mod topics;
pub mod webhooks;

use vstd::prelude::*;

use crate::config::Config;
use crate::json::{Json, JsonV};
use crate::parse::{all_ws_from, parse_text, sp_object_body, sp_value, spec_parse};
use crate::text::{dec_rep, u64_to_string};

verus! {

broadcast use vstd::std_specs::vec::group_vec_axioms, vstd::seq::group_seq_axioms;

/// The HTTP method of a request.
#[derive(Clone, Copy, PartialEq, Eq, Structural, Debug)]
pub enum Method {
    Get,
    Post,
    Patch,
    Delete,
}

/// One fully described HTTP call: everything the transport needs.  The
/// authorization and content-type headers are the same on every call and
/// derive from `api_key`.
#[derive(Debug)]
pub struct HttpRequest {
    pub method: Method,
    /// The absolute URL, without the query string.
    pub url: String,
    /// The credential to send as `Authorization: Bearer <api_key>`.
    pub api_key: String,
    /// Query parameters, each sent as one `name=value` pair, in order.
    pub query: Vec<(String, String)>,
    /// The JSON payload, when the operation has one.
    pub body: Option<String>,
}

/// The element-wise view of a query parameter list.
pub open spec fn query_view(q: Seq<(String, String)>) -> Seq<(Seq<char>, Seq<char>)> {
    Seq::new(q.len(), |i: int| (q[i].0@, q[i].1@))
}

/// Options for paginating list operations: three independent optional
/// fields, each sent as its own query parameter exactly when supplied.
#[derive(Clone, Debug)]
pub struct PaginationOptions {
    /// Maximum number of items to return.
    pub limit: Option<u32>,
    /// Cursor for the next page.
    pub after: Option<String>,
    /// Cursor for the previous page.
    pub before: Option<String>,
}

impl Default for PaginationOptions {
    /// The empty descriptor: no parameters, the server's default page.
    fn default() -> (r: Self)
        ensures
            r.limit is None,
            r.after is None,
            r.before is None,
    {
        PaginationOptions { limit: Option::None, after: Option::None, before: Option::None }
    }
}

/// The query parameters a pagination descriptor contributes: one pair per
/// supplied field, nothing for an absent one.
pub open spec fn pagination_params(p: PaginationOptions) -> Seq<(Seq<char>, Seq<char>)> {
    (match p.limit {
        Option::Some(l) => seq![("limit"@, dec_rep(l as nat))],
        Option::None => Seq::empty(),
    }) + (match p.after {
        Option::Some(a) => seq![("after"@, a@)],
        Option::None => Seq::empty(),
    }) + (match p.before {
        Option::Some(b) => seq![("before"@, b@)],
        Option::None => Seq::empty(),
    })
}

impl HttpRequest {
    /// Appends the pagination parameters to the request's query, leaving
    /// everything else unchanged.
    pub fn apply_pagination(&mut self, pagination: &PaginationOptions)
        ensures
            final(self).method == old(self).method,
            final(self).url == old(self).url,
            final(self).api_key == old(self).api_key,
            final(self).body == old(self).body,
            query_view(final(self).query@) == query_view(old(self).query@) + pagination_params(
                *pagination,
            ),
    {
        let ghost q0 = query_view(old(self).query@);
        let ghost limit_part = match pagination.limit {
            Option::Some(l) => seq![("limit"@, dec_rep(l as nat))],
            Option::None => Seq::<(Seq<char>, Seq<char>)>::empty(),
        };
        let ghost after_part = match &pagination.after {
            Option::Some(a) => seq![("after"@, a@)],
            Option::None => Seq::<(Seq<char>, Seq<char>)>::empty(),
        };
        let ghost before_part = match &pagination.before {
            Option::Some(b) => seq![("before"@, b@)],
            Option::None => Seq::<(Seq<char>, Seq<char>)>::empty(),
        };
        match &pagination.limit {
            Option::Some(l) => {
                self.query.push((String::from_str("limit"), u64_to_string(*l as u64)));
            },
            Option::None => {},
        }
        proof {
            assert(query_view(self.query@) =~= q0 + limit_part);
        }
        match &pagination.after {
            Option::Some(a) => {
                self.query.push((String::from_str("after"), a.clone()));
            },
            Option::None => {},
        }
        proof {
            assert(query_view(self.query@) =~= (q0 + limit_part) + after_part);
        }
        match &pagination.before {
            Option::Some(b) => {
                self.query.push((String::from_str("before"), b.clone()));
            },
            Option::None => {},
        }
        proof {
            assert(query_view(self.query@) =~= ((q0 + limit_part) + after_part) + before_part);
            assert(((q0 + limit_part) + after_part) + before_part =~= q0 + (limit_part
                + after_part + before_part));
        }
    }

    /// The value of the authorization header every call carries.
    pub fn auth_header(&self) -> (r: String)
        ensures
            r@ == "Bearer "@ + self.api_key@,
    {
        String::from_str("Bearer ").concat(self.api_key.as_str())
    }
}

/// An operation's failure: either the service rejected the call, or its
/// reply could not be decoded.  The two are distinct, and both carry the
/// raw response body.
#[derive(Debug)]
pub enum ApiError {
    /// A non-success status: the numeric code and the raw body text.
    Api { status: u16, body: String },
    /// A success status whose body did not decode: the raw body text.  The
    /// variant itself is the whole diagnosis — the parser reports no finer
    /// description of where decoding stopped.
    Decode { body: String },
}

/// The rendered message of an error, verbatim.
pub open spec fn api_error_text(e: ApiError) -> Seq<char> {
    match e {
        ApiError::Api { status, body } => "API Error ("@ + dec_rep(status as nat) + "): "@
            + body@,
        ApiError::Decode { body } => "Failed to parse response. Body: "@ + body@,
    }
}

impl ApiError {
    /// Renders the error as text; the message carries the literal status
    /// code and the literal response body.
    pub fn message(&self) -> (r: String)
        ensures
            r@ == api_error_text(*self),
    {
        match self {
            ApiError::Api { status, body } => {
                let mut m = String::from_str("API Error (");
                let digits = u64_to_string(*status as u64);
                m.append(digits.as_str());
                m.append("): ");
                m.append(body.as_str());
                m
            },
            ApiError::Decode { body } => {
                let mut m = String::from_str("Failed to parse response. Body: ");
                m.append(body.as_str());
                m
            },
        }
    }
}

/// Whether a status code counts as success.
pub open spec fn status_is_success(status: u16) -> bool {
    200 <= status < 300
}

/// A response type that decodes from a JSON value.  `json_wf` says which
/// values decode; `json_rel` says what the decoded value holds.
pub trait FromJson: Sized {
    spec fn json_wf(j: JsonV) -> bool;

    spec fn json_rel(j: JsonV, v: Self) -> bool;

    fn from_json(j: &Json) -> (r: Option<Self>)
        ensures
            match r {
                Option::Some(v) => Self::json_wf(j@) && Self::json_rel(j@, v),
                Option::None => !Self::json_wf(j@),
            },
    ;
}

/// Whether every element of a JSON array decodes as a `T`.
pub open spec fn arr_wf<T: FromJson>(j: JsonV) -> bool {
    j matches JsonV::Arr(a) && (forall|k: int| 0 <= k < a.len() ==> T::json_wf(#[trigger] a[k]))
}

/// What the elements of a decoded JSON array are.
pub open spec fn arr_rel<T: FromJson>(j: JsonV, v: Seq<T>) -> bool {
    j matches JsonV::Arr(a) && v.len() == a.len() && (forall|k: int|
        0 <= k < a.len() ==> T::json_rel(#[trigger] a[k], v[k]))
}

/// A JSON array decodes element-wise into a vector.
impl<T: FromJson> FromJson for Vec<T> {
    open spec fn json_wf(j: JsonV) -> bool {
        arr_wf::<T>(j)
    }

    open spec fn json_rel(j: JsonV, v: Self) -> bool {
        arr_rel::<T>(j, v@)
    }

    fn from_json(j: &Json) -> (r: Option<Self>)
        ensures
            match r {
                Option::Some(v) => Self::json_wf(j@) && Self::json_rel(j@, v),
                Option::None => !Self::json_wf(j@),
            },
    {
        match j {
            Json::Arr(elems) => {
                let ghost a = crate::json::arr_view(elems@);
                let mut out: Vec<T> = Vec::new();
                let mut i: usize = 0;
                while i < elems.len()
                    invariant
                        0 <= i <= elems@.len(),
                        out@.len() == i,
                        j@ == JsonV::Arr(a),
                        a == crate::json::arr_view(elems@),
                        a.len() == elems@.len(),
                        forall|k: int| 0 <= k < a.len() ==> a[k] == elems@[k]@,
                        forall|k: int| 0 <= k < i ==> T::json_wf(#[trigger] a[k]),
                        forall|k: int| 0 <= k < i ==> T::json_rel(#[trigger] a[k], out@[k]),
                    decreases elems@.len() - i,
                {
                    match T::from_json(&elems[i]) {
                        Option::Some(v) => {
                            out.push(v);
                        },
                        Option::None => {
                            proof {
                                assert(a[i as int] == elems@[i as int]@);
                                assert(!T::json_wf(a[i as int]));
                                let aa = j@->Arr_0;
                                assert(aa == a);
                                assert(!T::json_wf(aa[i as int]));
                                assert(!arr_wf::<T>(j@));
                            }
                            return Option::None;
                        },
                    }
                    i = i + 1;
                }
                Option::Some(out)
            },
            _ => Option::None,
        }
    }
}

/// A raw JSON response: any value decodes, and is returned as is.
impl FromJson for Json {
    open spec fn json_wf(j: JsonV) -> bool {
        true
    }

    open spec fn json_rel(j: JsonV, v: Self) -> bool {
        v@ == j
    }

    fn from_json(j: &Json) -> (r: Option<Self>)
        ensures
            match r {
                Option::Some(v) => Self::json_wf(j@) && Self::json_rel(j@, v),
                Option::None => !Self::json_wf(j@),
            },
    {
        Option::Some(j.deep_clone())
    }
}

/// Whether `j` is a list envelope whose `data` member decodes as a `Vec<T>`.
pub open spec fn data_wf<T: FromJson>(j: JsonV) -> bool {
    match crate::json::jv_get(j, "data"@) {
        Option::Some(dj) => <Vec<T> as FromJson>::json_wf(dj),
        Option::None => false,
    }
}

/// What the records of a list envelope are.
pub open spec fn data_rel<T: FromJson>(j: JsonV, v: Vec<T>) -> bool {
    match crate::json::jv_get(j, "data"@) {
        Option::Some(dj) => <Vec<T> as FromJson>::json_rel(dj, v),
        Option::None => false,
    }
}

/// Decodes the `data` member of a list envelope.
pub fn decode_data<T: FromJson>(j: &Json) -> (r: Option<Vec<T>>)
    ensures
        match r {
            Option::Some(v) => data_wf::<T>(j@) && data_rel::<T>(j@, v),
            Option::None => !data_wf::<T>(j@),
        },
{
    match j.get("data") {
        Option::Some(d) => Vec::<T>::from_json(d),
        Option::None => Option::None,
    }
}

/// The body actually decoded: an empty success body counts as an empty
/// JSON object.
pub open spec fn effective_body(b: Seq<char>) -> Seq<char> {
    if b.len() == 0 {
        seq!['{', '}']
    } else {
        b
    }
}

/// The response algorithm shared by every non-void operation.
pub fn handle_response<T: FromJson>(status: u16, body: &str) -> (r: Result<T, ApiError>)
    ensures
        match r {
            Result::Ok(v) => status_is_success(status) && (spec_parse(effective_body(body@))
                matches Option::Some(j) && T::json_wf(j) && T::json_rel(j, v)),
            Result::Err(e) => match e {
                ApiError::Api { status: st, body: b } => !status_is_success(status) && st == status
                    && b@ == body@,
                ApiError::Decode { body: b } => status_is_success(status) && b@ == body@ && (match
                    spec_parse(effective_body(body@)) {
                    Option::Some(j) => !T::json_wf(j),
                    Option::None => true,
                }),
            },
        },
{
    if !(200 <= status && status < 300) {
        return Result::Err(ApiError::Api { status, body: String::from_str(body) });
    }
    let parsed = if body.is_empty() {
        proof {
            reveal_strlit("{}");
            assert("{}"@ =~= seq!['{', '}']);
        }
        parse_text("{}")
    } else {
        parse_text(body)
    };
    match parsed {
        Option::None => Result::Err(ApiError::Decode { body: String::from_str(body) }),
        Option::Some(j) => match T::from_json(&j) {
            Option::Some(v) => Result::Ok(v),
            Option::None => Result::Err(ApiError::Decode { body: String::from_str(body) }),
        },
    }
}

/// The response algorithm of void operations: success is judged by status
/// alone, and no body is decoded.
pub fn handle_void(status: u16, body: &str) -> (r: Result<(), ApiError>)
    ensures
        match r {
            Result::Ok(u) => status_is_success(status),
            Result::Err(e) => !status_is_success(status) && (e matches ApiError::Api {
                status: st,
                body: b,
            } && st == status && b@ == body@),
        },
{
    if 200 <= status && status < 300 {
        Result::Ok(())
    } else {
        Result::Err(ApiError::Api { status, body: String::from_str(body) })
    }
}


/// The keys of a query parameter list, in order.
pub open spec fn param_keys(q: Seq<(Seq<char>, Seq<char>)>) -> Seq<Seq<char>> {
    Seq::new(q.len(), |i: int| q[i].0)
}

/// For every pagination descriptor, the query parameters present are
/// exactly the supplied fields among limit, after and before — one
/// parameter per supplied field, none for an absent one, and no extras.
pub proof fn lemma_pagination_exact(p: PaginationOptions)
    ensures
        param_keys(pagination_params(p)) == crate::json::opt_key("limit"@, p.limit is Some)
            + crate::json::opt_key("after"@, p.after is Some) + crate::json::opt_key(
            "before"@,
            p.before is Some,
        ),
        p.limit matches Option::Some(l) ==> pagination_params(p).contains(
            ("limit"@, dec_rep(l as nat)),
        ),
        p.after matches Option::Some(a) ==> pagination_params(p).contains(("after"@, a@)),
        p.before matches Option::Some(b) ==> pagination_params(p).contains(("before"@, b@)),
        p.limit is None ==> !param_keys(pagination_params(p)).contains("limit"@),
        p.after is None ==> !param_keys(pagination_params(p)).contains("after"@),
        p.before is None ==> !param_keys(pagination_params(p)).contains("before"@),
{
    reveal_strlit("limit");
    reveal_strlit("after");
    reveal_strlit("before");
    assert("limit"@.len() == 5 && "after"@.len() == 5 && "before"@.len() == 6);
    assert("limit"@[0] == 'l' && "after"@[0] == 'a');
    let q = pagination_params(p);
    assert(param_keys(q) =~= crate::json::opt_key("limit"@, p.limit is Some)
        + crate::json::opt_key("after"@, p.after is Some) + crate::json::opt_key(
        "before"@,
        p.before is Some,
    ));
    match p.limit {
        Option::Some(l) => {
            assert(q[0] == ("limit"@, dec_rep(l as nat)));
        },
        Option::None => {},
    }
    match p.after {
        Option::Some(a) => {
            let i = if p.limit is Some { 1int } else { 0int };
            assert(q[i] == ("after"@, a@));
        },
        Option::None => {},
    }
    match p.before {
        Option::Some(b) => {
            let i = (if p.limit is Some { 1int } else { 0int }) + (if p.after is Some { 1int } else { 0int });
            assert(q[i] == ("before"@, b@));
        },
        Option::None => {},
    }
}

/// On a success status, an empty response body stands for the empty JSON
/// object, which parses — so a raw JSON response decodes to the empty
/// object, and a void operation succeeds, never erring on the missing
/// body.  A response type with required fields still rejects it, as a
/// decode error.
pub proof fn lemma_empty_body_is_empty_object()
    ensures
        spec_parse(effective_body(Seq::<char>::empty())) == Option::Some(
            JsonV::Obj(Seq::empty()),
        ),
        <Json as FromJson>::json_wf(JsonV::Obj(Seq::empty())),
{
    let s = seq!['{', '}'];
    assert(effective_body(Seq::<char>::empty()) == s);
    assert(!crate::parse::is_ws('{'));
    assert(sp_object_body(s, 1) == Option::Some((JsonV::Obj(Seq::<(Seq<char>, JsonV)>::empty()), 2int)));
    assert(sp_value(s, 0) == Option::Some((JsonV::Obj(Seq::<(Seq<char>, JsonV)>::empty()), 2int)));
    assert(all_ws_from(s, 2));
}

/// A service rejection's message carries the literal status code and the
/// literal response body: the digits of the status begin right after the
/// fixed prefix, and the body is the message's tail, whatever the
/// response's shape was.
pub proof fn lemma_api_error_message(status: u16, body: String)
    ensures
        ({
            let m = api_error_text(ApiError::Api { status, body });
            let d = dec_rep(status as nat);
            &&& m.subrange(11, 11 + d.len() as int) == d
            &&& m.subrange(m.len() - body@.len(), m.len() as int) == body@
        }),
{
    reveal_strlit("API Error (");
    reveal_strlit("): ");
    let m = api_error_text(ApiError::Api { status, body });
    let d = dec_rep(status as nat);
    assert("API Error ("@.len() == 11);
    assert("): "@.len() == 3);
    assert(m.subrange(11, 11 + d.len() as int) =~= d);
    assert(m.subrange(m.len() - body@.len(), m.len() as int) =~= body@);
}

/// A decode failure's message carries the raw response body verbatim as
/// its tail; the failure is a different variant from a service rejection,
/// so callers can always tell the two apart.
pub proof fn lemma_decode_error_message(body: String)
    ensures
        ({
            let m = api_error_text(ApiError::Decode { body });
            m.subrange(m.len() - body@.len(), m.len() as int) == body@
        }),
        (forall|st: u16, b1: String, b2: String|
            (ApiError::Api { status: st, body: b1 }) != (ApiError::Decode { body: b2 })),
{
    reveal_strlit("Failed to parse response. Body: ");
    let m = api_error_text(ApiError::Decode { body });
    assert(m.subrange(m.len() - body@.len(), m.len() as int) =~= body@);
}

/// The dispatch client: the service's base URL and the credential.  Both
/// are fixed at construction; every operation derives one request from
/// them.
#[derive(Debug)]
pub struct ResendClient {
    pub api_key: String,
    pub base_url: String,
}

impl ResendClient {
    /// A client for the service's fixed API host, authenticating with the
    /// configured credential.
    pub fn new(config: Config) -> (r: Self)
        ensures
            r.api_key@ == config.api_key@,
            r.base_url@ == "https://api.resend.com"@,
    {
        ResendClient {
            api_key: config.api_key,
            base_url: String::from_str("https://api.resend.com"),
        }
    }

    /// A bare request for `path` under the base URL: the given method, the
    /// uniform headers, no query, no body.
    pub fn request(&self, method: Method, path: &str) -> (r: HttpRequest)
        ensures
            r.method == method,
            r.url@ == self.base_url@ + path@,
            r.api_key@ == self.api_key@,
            query_view(r.query@) == Seq::<(Seq<char>, Seq<char>)>::empty(),
            r.body is None,
    {
        let url = self.base_url.clone().concat(path);
        let r = HttpRequest {
            method,
            url,
            api_key: self.api_key.clone(),
            query: Vec::new(),
            body: Option::None,
        };
        proof {
            assert(query_view(r.query@) =~= Seq::<(Seq<char>, Seq<char>)>::empty());
        }
        r
    }

    /// A request for `path` carrying `payload` serialized as its JSON body.
    pub fn request_with_body(&self, method: Method, path: &str, payload: &Json) -> (r: HttpRequest)
        ensures
            r.method == method,
            r.url@ == self.base_url@ + path@,
            r.api_key@ == self.api_key@,
            query_view(r.query@) == Seq::<(Seq<char>, Seq<char>)>::empty(),
            r.body matches Option::Some(b) && b@ == crate::encode::json_text(payload@),
    {
        let mut r = self.request(method, path);
        r.body = Option::Some(crate::encode::to_text(payload));
        r
    }

    /// A request whose path is `prefix` followed by an identifier.
    pub fn request_for_id(&self, method: Method, prefix: &str, id: &str) -> (r: HttpRequest)
        ensures
            plain_call(r, *self, method, prefix@ + id@),
    {
        let path = String::from_str(prefix).concat(id);
        self.request(method, path.as_str())
    }

    /// A request whose path is `prefix`, an identifier, then `suffix`.
    pub fn request_for_id_with(&self, method: Method, prefix: &str, id: &str, suffix: &str) -> (r:
        HttpRequest)
        ensures
            plain_call(r, *self, method, prefix@ + id@ + suffix@),
    {
        let path = String::from_str(prefix).concat(id).concat(suffix);
        let r = self.request(method, path.as_str());
        proof {
            assert((prefix@ + id@) + suffix@ =~= prefix@ + id@ + suffix@);
        }
        r
    }

    /// A request whose path names two resources: `prefix`, an identifier,
    /// `mid`, a second identifier.
    pub fn request_for_two_ids(
        &self,
        method: Method,
        prefix: &str,
        id1: &str,
        mid: &str,
        id2: &str,
    ) -> (r: HttpRequest)
        ensures
            plain_call(r, *self, method, prefix@ + id1@ + mid@ + id2@),
    {
        let path = String::from_str(prefix).concat(id1).concat(mid).concat(id2);
        let r = self.request(method, path.as_str());
        proof {
            assert(((prefix@ + id1@) + mid@) + id2@ =~= prefix@ + id1@ + mid@ + id2@);
        }
        r
    }
}

/// A request with the given method and path, the uniform headers, no query
/// parameters and no body.
pub open spec fn plain_call(r: HttpRequest, c: ResendClient, m: Method, path: Seq<char>) -> bool {
    &&& r.method == m
    &&& r.url@ == c.base_url@ + path
    &&& r.api_key@ == c.api_key@
    &&& query_view(r.query@) == Seq::<(Seq<char>, Seq<char>)>::empty()
    &&& r.body is None
}

/// A GET request whose query parameters are exactly the pagination
/// descriptor's, and nothing else.
pub open spec fn list_call(
    r: HttpRequest,
    c: ResendClient,
    path: Seq<char>,
    p: PaginationOptions,
) -> bool {
    &&& r.method == Method::Get
    &&& r.url@ == c.base_url@ + path
    &&& r.api_key@ == c.api_key@
    &&& query_view(r.query@) == pagination_params(p)
    &&& r.body is None
}

/// A request carrying `payload` serialized as its body, with no query
/// parameters.
pub open spec fn payload_call(
    r: HttpRequest,
    c: ResendClient,
    m: Method,
    path: Seq<char>,
    payload: JsonV,
) -> bool {
    &&& r.method == m
    &&& r.url@ == c.base_url@ + path
    &&& r.api_key@ == c.api_key@
    &&& query_view(r.query@) == Seq::<(Seq<char>, Seq<char>)>::empty()
    &&& r.body matches Option::Some(b) && b@ == crate::encode::json_text(payload)
}

} // verus!
