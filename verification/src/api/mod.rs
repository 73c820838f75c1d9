//! The typed HTTP client: request descriptions built from a base URL, a
//! relative path, query pairs, credentials and a body.
//!
//! Nothing here performs a request. Every endpoint returns a [`RequestSpec`]
//! that pins down the URL, method, headers and body bytes; the browser glue
//! only hands that description to the fetch machinery.

use vstd::prelude::*;
use vstd::utf8::encode_utf8;

use crate::auth::BasicCredentials;

pub mod error;
pub mod gallery;
pub mod multipart;
pub mod password_reset;
pub mod session;
pub mod users;

verus! {

/// The request methods the console uses.
#[derive(Debug, Clone, Copy, PartialEq, Eq, Structural)]
pub enum Method {
    Get,
    Post,
    Put,
    Delete,
}

/// One fully-determined request: what to send, where, and with which headers.
pub struct RequestSpec {
    pub url: String,
    pub method: Method,
    pub content_type: Option<String>,
    pub auth: Option<BasicCredentials>,
    pub body: Option<Vec<u8>>,
}

/// View of a list of query or form pairs.
pub open spec fn spec_pairs(q: Seq<(String, String)>) -> Seq<(Seq<char>, Seq<char>)> {
    q.map_values(|p: (String, String)| (p.0@, p.1@))
}

/// What `url::Url` produces for our base URL joined with a relative path and
/// extended with percent-encoded query pairs, or nothing when the base does
/// not parse as a URL or the path does not join onto it.
pub uninterp spec fn resolved_url(
    base: Seq<char>,
    path: Seq<char>,
    pairs: Seq<(Seq<char>, Seq<char>)>,
) -> Option<Seq<char>>;

/// Relies on `url::Url::parse`, `Url::join` (RFC 3986 reference resolution)
/// and `Url::query_pairs_mut().extend_pairs(..)` (the
/// `application/x-www-form-urlencoded` serializer): the result is a function
/// of the three arguments alone, and the call fails exactly when parsing or
/// joining fails.
#[verifier::external_body]
fn build_url(base: &str, path: &str, pairs: &Vec<(String, String)>) -> (r: Option<String>)
    ensures
        match r {
            Some(u) => resolved_url(base@, path@, spec_pairs(pairs@)) == Some(u@),
            None => resolved_url(base@, path@, spec_pairs(pairs@)) is None,
        },
{
    let base = url::Url::parse(base).ok()?;
    let mut url = base.join(path).ok()?;
    url.query_pairs_mut().extend_pairs(pairs.iter().map(|p| (p.0.as_str(), p.1.as_str())));
    Some(String::from(url))
}

/// A request body: its content type header, if any, and its bytes, if any.
pub trait RequestBody: Sized {
    spec fn spec_content_type(&self) -> Option<Seq<char>>;

    spec fn spec_body_bytes(&self) -> Option<Seq<u8>>;

    fn content_type(&self) -> (r: Option<String>)
        ensures
            match r {
                Some(s) => self.spec_content_type() == Some(s@),
                None => self.spec_content_type() is None,
            },
    ;

    fn into_body_bytes(self) -> (r: Option<Vec<u8>>)
        ensures
            match r {
                Some(v) => self.spec_body_bytes() == Some(v@),
                None => self.spec_body_bytes() is None,
            },
    ;
}

/// The body of a GET or DELETE request: no content type, no bytes.
pub struct Empty;

impl RequestBody for Empty {
    open spec fn spec_content_type(&self) -> Option<Seq<char>> {
        None
    }

    open spec fn spec_body_bytes(&self) -> Option<Seq<u8>> {
        None
    }

    fn content_type(&self) -> (r: Option<String>) {
        None
    }

    fn into_body_bytes(self) -> (r: Option<Vec<u8>>) {
        None
    }
}

/// What `serde_urlencoded::to_string` produces for a list of string pairs:
/// `k1=v1&k2=v2` with both sides percent-encoded.
pub uninterp spec fn form_encoded(pairs: Seq<(Seq<char>, Seq<char>)>) -> Seq<char>;

/// Relies on `serde_urlencoded::to_string`: the result depends on the pairs
/// alone, serializing a list of string pairs never fails, and the output is
/// ASCII because both sides are percent-encoded.
#[verifier::external_body]
fn encode_form(pairs: &Vec<(String, String)>) -> (r: String)
    ensures
        r@ == form_encoded(spec_pairs(pairs@)),
        r.is_ascii(),
{
    serde_urlencoded::to_string(pairs).unwrap_or_default()
}

/// What `serde_urlencoded::from_str` reads out of a query string: its list
/// of string pairs, or nothing when the string is not valid
/// `application/x-www-form-urlencoded` text.
pub uninterp spec fn form_decoded(s: Seq<char>) -> Option<Seq<(Seq<char>, Seq<char>)>>;

/// Relies on `serde_urlencoded::from_str`: the result depends on the input
/// alone.
#[verifier::external_body]
pub(crate) fn decode_form(s: &str) -> (r: Option<Vec<(String, String)>>)
    ensures
        match r {
            Some(v) => form_decoded(s@) == Some(spec_pairs(v@)),
            None => form_decoded(s@) is None,
        },
{
    serde_urlencoded::from_str::<Vec<(String, String)>>(s).ok()
}

/// A form body: pairs sent as `application/x-www-form-urlencoded`.
pub struct FormUrlEncoded(pub Vec<(String, String)>);

impl RequestBody for FormUrlEncoded {
    open spec fn spec_content_type(&self) -> Option<Seq<char>> {
        Some("application/x-www-form-urlencoded"@)
    }

    open spec fn spec_body_bytes(&self) -> Option<Seq<u8>> {
        Some(encode_utf8(form_encoded(spec_pairs(self.0@))))
    }

    fn content_type(&self) -> (r: Option<String>) {
        Some(String::from_str("application/x-www-form-urlencoded"))
    }

    fn into_body_bytes(self) -> (r: Option<Vec<u8>>) {
        Some(encode_form(&self.0).as_str().as_bytes_vec())
    }
}

/// A page of results, as the list endpoints return it: the total number of
/// matches and the page itself.
#[derive(Debug, Clone, PartialEq)]
pub struct Counted<T> {
    pub total: u32,
    pub results: Vec<T>,
}

/// The client: the base URL every path is resolved against, and the
/// credentials attached to each request while a user is signed in.
#[derive(Clone, PartialEq)]
pub struct APIClient {
    base_url: String,
    auth_header: Option<BasicCredentials>,
}

impl APIClient {
    pub closed spec fn spec_base_url(&self) -> Seq<char> {
        self.base_url@
    }

    pub closed spec fn spec_auth_header(&self) -> Option<BasicCredentials> {
        self.auth_header
    }

    pub fn new(base_url: &str) -> (r: APIClient)
        ensures
            r.spec_base_url() == base_url@,
            r.spec_auth_header() is None,
    {
        APIClient { base_url: base_url.to_owned(), auth_header: None }
    }

    pub fn auth_header(&self) -> (r: &Option<BasicCredentials>)
        ensures
            *r == self.spec_auth_header(),
    {
        &self.auth_header
    }

    pub fn set_auth_header(&mut self, a: BasicCredentials)
        ensures
            final(self).spec_auth_header() == Some(a),
            final(self).spec_base_url() == old(self).spec_base_url(),
    {
        self.auth_header = Some(a)
    }

    pub fn remove_auth_header(&mut self)
        ensures
            final(self).spec_auth_header() is None,
            final(self).spec_base_url() == old(self).spec_base_url(),
    {
        self.auth_header = None
    }

    /// The request description a call with these arguments sends: one is
    /// returned exactly when the base URL and path resolve to a URL.
    pub fn request<B: RequestBody>(
        &self,
        path: &str,
        query: Vec<(String, String)>,
        method: Method,
        body: B,
    ) -> (r: Option<RequestSpec>)
        ensures
            (r is Some) == (resolved_url(self.spec_base_url(), path@, spec_pairs(query@))
                is Some),
            r matches Some(q) ==> {
                &&& resolved_url(self.spec_base_url(), path@, spec_pairs(query@)) == Some(q.url@)
                &&& q.method == method
                &&& match q.content_type {
                    Some(c) => body.spec_content_type() == Some(c@),
                    None => body.spec_content_type() is None,
                }
                &&& q.auth == self.spec_auth_header()
                &&& match q.body {
                    Some(b) => body.spec_body_bytes() == Some(b@),
                    None => body.spec_body_bytes() is None,
                }
            },
    {
        let url = build_url(self.base_url.as_str(), path, &query)?;
        let content_type = body.content_type();
        let auth = match &self.auth_header {
            Some(c) => Some(c.clone()),
            None => None,
        };
        Some(RequestSpec { url, method, content_type, auth, body: body.into_body_bytes() })
    }

    pub fn get(&self, path: &str, query: Vec<(String, String)>) -> (r: Option<RequestSpec>)
        ensures
            (r is Some) == (resolved_url(self.spec_base_url(), path@, spec_pairs(query@))
                is Some),
            r matches Some(q) ==> {
                &&& resolved_url(self.spec_base_url(), path@, spec_pairs(query@)) == Some(q.url@)
                &&& q.method == Method::Get
                &&& q.content_type is None
                &&& q.auth == self.spec_auth_header()
                &&& q.body is None
            },
    {
        self.request(path, query, Method::Get, Empty)
    }

    pub fn post<B: RequestBody>(&self, path: &str, query: Vec<(String, String)>, body: B) -> (r:
        Option<RequestSpec>)
        ensures
            (r is Some) == (resolved_url(self.spec_base_url(), path@, spec_pairs(query@))
                is Some),
            r matches Some(q) ==> {
                &&& resolved_url(self.spec_base_url(), path@, spec_pairs(query@)) == Some(q.url@)
                &&& q.method == Method::Post
                &&& match q.content_type {
                    Some(c) => body.spec_content_type() == Some(c@),
                    None => body.spec_content_type() is None,
                }
                &&& q.auth == self.spec_auth_header()
                &&& match q.body {
                    Some(b) => body.spec_body_bytes() == Some(b@),
                    None => body.spec_body_bytes() is None,
                }
            },
    {
        self.request(path, query, Method::Post, body)
    }

    pub fn put<B: RequestBody>(&self, path: &str, query: Vec<(String, String)>, body: B) -> (r:
        Option<RequestSpec>)
        ensures
            (r is Some) == (resolved_url(self.spec_base_url(), path@, spec_pairs(query@))
                is Some),
            r matches Some(q) ==> {
                &&& resolved_url(self.spec_base_url(), path@, spec_pairs(query@)) == Some(q.url@)
                &&& q.method == Method::Put
                &&& match q.content_type {
                    Some(c) => body.spec_content_type() == Some(c@),
                    None => body.spec_content_type() is None,
                }
                &&& q.auth == self.spec_auth_header()
                &&& match q.body {
                    Some(b) => body.spec_body_bytes() == Some(b@),
                    None => body.spec_body_bytes() is None,
                }
            },
    {
        self.request(path, query, Method::Put, body)
    }

    pub fn delete(&self, path: &str, query: Vec<(String, String)>) -> (r: Option<RequestSpec>)
        ensures
            (r is Some) == (resolved_url(self.spec_base_url(), path@, spec_pairs(query@))
                is Some),
            r matches Some(q) ==> {
                &&& resolved_url(self.spec_base_url(), path@, spec_pairs(query@)) == Some(q.url@)
                &&& q.method == Method::Delete
                &&& q.content_type is None
                &&& q.auth == self.spec_auth_header()
                &&& q.body is None
            },
    {
        self.request(path, query, Method::Delete, Empty)
    }
}

} // verus!
