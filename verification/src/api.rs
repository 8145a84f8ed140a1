//! The REST client core: request building and response classification.
//!
//! An [`ApiClient`] owns a base URL and an optional bearer token.  For
//! each of the six operations it builds an [`HttpRequest`] — the joined
//! URL, the ordered header list and the encoded body — ready for a
//! transport to send.  [`require_success`] classifies the response the
//! transport hands back: a 2xx status yields the raw body for decoding,
//! anything else is a request-level failure carrying status and body.

use vstd::prelude::*;
use vstd::string::*;
use vstd::utf8::encode_utf8;

use crate::encoding::fields_bytes_view;
use crate::encoding::form_encode;
use crate::encoding::form_encoded;
use crate::headers::build_headers;
use crate::headers::extra_view;
use crate::headers::opt_str_view;
use crate::headers::opt_string_view;
use crate::headers::pairs_view;
use crate::headers::spec_headers;
use crate::url::join_spec;
use crate::url::join_url;

verus! {

/// The HTTP methods this client issues.
#[derive(Clone, Copy, Debug, PartialEq, Eq, Structural)]
pub enum Method {
    Get,
    Post,
    Put,
    Delete,
}

/// An outgoing request, ready for a transport to send: the method, the
/// full URL, the ordered header list, and the body bytes when the
/// operation carries a body.
#[derive(Debug)]
pub struct HttpRequest {
    pub method: Method,
    pub url: String,
    pub headers: Vec<(String, String)>,
    pub body: Option<Vec<u8>>,
}

/// A response as a transport hands it back: the status code and the raw
/// body text.
#[derive(Debug)]
pub struct HttpResponse {
    pub status: u16,
    pub body: String,
}

/// Why a call failed: the transport failed outright, the server answered
/// with a non-2xx status, or the body did not decode into the expected
/// shape.  No layer of this library retries, wraps or swallows one.
#[derive(Clone, Debug)]
pub enum ApiError {
    /// A connection, DNS or timeout failure reported by the transport.
    Transport(String),
    /// The server was reached but answered with a non-2xx status; the
    /// raw body lets the caller tell, say, bad credentials from a server
    /// failure.
    RequestFailed { status: u16, body: String },
    /// The response body did not decode into the expected shape.
    Decode(String),
}

impl ApiError {
    /// An exact copy of the error.
    pub fn duplicate(&self) -> (e: ApiError)
        ensures
            e == *self,
    {
        match self {
            ApiError::Transport(msg) => ApiError::Transport(msg.clone()),
            ApiError::RequestFailed { status, body } => ApiError::RequestFailed {
                status: *status,
                body: body.clone(),
            },
            ApiError::Decode(msg) => ApiError::Decode(msg.clone()),
        }
    }
}

/// Whether a status code counts as success.
pub open spec fn spec_is_success(status: u16) -> bool {
    200 <= status < 300
}

/// Whether `status` is a 2xx success status.
pub fn is_success(status: u16) -> (b: bool)
    ensures
        b == spec_is_success(status),
{
    200 <= status && status < 300
}

/// What a built request holds: the given method, the base URL and path
/// joined with exactly one slash, the header list in its fixed order —
/// Authorization first when a token is set, then the content type, then
/// the extra headers — and exactly the given body.
pub open spec fn spec_request(
    token: Option<Seq<char>>,
    base: Seq<char>,
    path: Seq<char>,
    method: Method,
    content_type: Option<Seq<char>>,
    extra: Seq<(Seq<char>, Seq<char>)>,
    body: Option<Seq<u8>>,
    req: HttpRequest,
) -> bool {
    &&& req.method == method
    &&& req.url@ == join_spec(base, path)
    &&& pairs_view(req.headers@) == spec_headers(token, content_type, extra)
    &&& match (req.body, body) {
        (Some(actual), Some(wanted)) => actual@ == wanted,
        (None, None) => true,
        _ => false,
    }
}

/// Classify a response: a 2xx status yields the raw body for decoding,
/// any other status is a request-level failure carrying the status and
/// the raw body.
pub fn require_success(resp: HttpResponse) -> (r: Result<String, ApiError>)
    ensures
        spec_is_success(resp.status) ==> r == Ok::<String, ApiError>(resp.body),
        !spec_is_success(resp.status) ==> r == Err::<String, ApiError>(
            (ApiError::RequestFailed { status: resp.status, body: resp.body }),
        ),
{
    if is_success(resp.status) {
        Ok(resp.body)
    } else {
        Err(ApiError::RequestFailed { status: resp.status, body: resp.body })
    }
}

/// The REST client: a base URL and an optional bearer token.  It builds
/// requests; a transport outside this library sends them.  Immutable
/// after construction, so one client value serves any number of
/// concurrent calls.
pub struct ApiClient {
    base_url: String,
    token: Option<String>,
}

impl ApiClient {
    /// The configured base URL.
    pub closed spec fn base_url_view(&self) -> Seq<char> {
        self.base_url@
    }

    /// The configured bearer token, when one is set.
    pub closed spec fn token_view(&self) -> Option<Seq<char>> {
        opt_string_view(self.token)
    }

    /// A client for the given base URL, with no token configured.  The
    /// base URL is stored as given; a malformed one surfaces as a
    /// transport error on first use, not here.
    pub fn new(base_url: &str) -> (c: ApiClient)
        ensures
            c.base_url_view() == base_url@,
            c.token_view() is None,
    {
        ApiClient { base_url: base_url.to_owned(), token: None }
    }

    /// The same client with a bearer token configured: every request
    /// built afterwards carries `Authorization: Bearer <token>`.
    pub fn with_token(self, token: String) -> (c: ApiClient)
        ensures
            c.base_url_view() == self.base_url_view(),
            c.token_view() == Some(token@),
    {
        ApiClient { base_url: self.base_url, token: Some(token) }
    }

    fn build_request(
        &self,
        method: Method,
        path: &str,
        content_type: Option<&str>,
        body: Option<Vec<u8>>,
        extra_headers: Option<&Vec<(String, String)>>,
    ) -> (req: HttpRequest)
        ensures
            spec_request(
                self.token_view(),
                self.base_url_view(),
                path@,
                method,
                opt_str_view(content_type),
                extra_view(extra_headers),
                match body {
                    Some(b) => Some(b@),
                    None => None,
                },
                req,
            ),
    {
        HttpRequest {
            method,
            url: join_url(self.base_url.as_str(), path),
            headers: build_headers(&self.token, content_type, extra_headers),
            body,
        }
    }

    /// The GET request for `base_url + path`: no body, no content type;
    /// the response body is decoded as JSON by the caller.
    pub fn get_json_request(
        &self,
        path: &str,
        extra_headers: Option<&Vec<(String, String)>>,
    ) -> (req: HttpRequest)
        ensures
            spec_request(
                self.token_view(),
                self.base_url_view(),
                path@,
                Method::Get,
                None,
                extra_view(extra_headers),
                None,
                req,
            ),
    {
        self.build_request(Method::Get, path, None, None, extra_headers)
    }

    /// The DELETE request for `base_url + path`: no body, no content
    /// type; the response body is decoded as JSON by the caller.
    pub fn delete_json_request(
        &self,
        path: &str,
        extra_headers: Option<&Vec<(String, String)>>,
    ) -> (req: HttpRequest)
        ensures
            spec_request(
                self.token_view(),
                self.base_url_view(),
                path@,
                Method::Delete,
                None,
                extra_view(extra_headers),
                None,
                req,
            ),
    {
        self.build_request(Method::Delete, path, None, None, extra_headers)
    }

    /// The POST request for `base_url + path` carrying `json_body` —
    /// already serialized JSON text — with content type
    /// `application/json`.
    pub fn post_json_request(
        &self,
        path: &str,
        json_body: &str,
        extra_headers: Option<&Vec<(String, String)>>,
    ) -> (req: HttpRequest)
        ensures
            spec_request(
                self.token_view(),
                self.base_url_view(),
                path@,
                Method::Post,
                Some("application/json"@),
                extra_view(extra_headers),
                Some(encode_utf8(json_body@)),
                req,
            ),
    {
        self.build_request(
            Method::Post,
            path,
            Some("application/json"),
            Some(json_body.as_bytes_vec()),
            extra_headers,
        )
    }

    /// The PUT request for `base_url + path` carrying `json_body` —
    /// already serialized JSON text — with content type
    /// `application/json`.
    pub fn put_json_request(
        &self,
        path: &str,
        json_body: &str,
        extra_headers: Option<&Vec<(String, String)>>,
    ) -> (req: HttpRequest)
        ensures
            spec_request(
                self.token_view(),
                self.base_url_view(),
                path@,
                Method::Put,
                Some("application/json"@),
                extra_view(extra_headers),
                Some(encode_utf8(json_body@)),
                req,
            ),
    {
        self.build_request(
            Method::Put,
            path,
            Some("application/json"),
            Some(json_body.as_bytes_vec()),
            extra_headers,
        )
    }

    /// The POST request for `base_url + path` carrying the ordered form
    /// fields, encoded as `application/x-www-form-urlencoded`.
    pub fn post_form_request(
        &self,
        path: &str,
        fields: &Vec<(String, String)>,
        extra_headers: Option<&Vec<(String, String)>>,
    ) -> (req: HttpRequest)
        ensures
            spec_request(
                self.token_view(),
                self.base_url_view(),
                path@,
                Method::Post,
                Some("application/x-www-form-urlencoded"@),
                extra_view(extra_headers),
                Some(form_encoded(fields_bytes_view(fields@))),
                req,
            ),
    {
        self.build_request(
            Method::Post,
            path,
            Some("application/x-www-form-urlencoded"),
            Some(form_encode(fields)),
            extra_headers,
        )
    }

    /// The PUT request for `base_url + path` carrying the ordered form
    /// fields, encoded as `application/x-www-form-urlencoded`.
    pub fn put_form_request(
        &self,
        path: &str,
        fields: &Vec<(String, String)>,
        extra_headers: Option<&Vec<(String, String)>>,
    ) -> (req: HttpRequest)
        ensures
            spec_request(
                self.token_view(),
                self.base_url_view(),
                path@,
                Method::Put,
                Some("application/x-www-form-urlencoded"@),
                extra_view(extra_headers),
                Some(form_encoded(fields_bytes_view(fields@))),
                req,
            ),
    {
        self.build_request(
            Method::Put,
            path,
            Some("application/x-www-form-urlencoded"),
            Some(form_encode(fields)),
            extra_headers,
        )
    }
}

} // verus!
