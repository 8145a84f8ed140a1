//! The authentication capability and its implementations.
//!
//! [`AuthRepository`] is the injection seam: [`AuthService`] is generic
//! over it, so the production [`RestAuthRepository`] and any test double
//! are interchangeable without touching the service.
//!
//! [`AuthService`]: crate::service::AuthService

use vstd::prelude::*;
use vstd::string::*;
use vstd::utf8::encode_utf8;

use crate::api::ApiClient;
use crate::api::ApiError;
use crate::api::HttpRequest;
use crate::api::HttpResponse;
use crate::api::Method;
use crate::api::require_success;
use crate::api::spec_is_success;
use crate::api::spec_request;
use crate::encoding::fields_bytes_view;
use crate::encoding::form_encoded;
use crate::models::AuthToken;
use crate::token_json::decode_auth_token;
use crate::token_json::spec_decoded_token;

verus! {

/// The authentication capability: exchange client credentials for a
/// token.  Each implementation states in `authenticate_post` what it
/// promises of a result, and `authenticate` returns nothing but a
/// result that promise holds of.
pub trait AuthRepository: Sized {
    /// What this implementation promises of an `authenticate` result.
    /// An implementation that does not say more promises nothing.
    open spec fn authenticate_post(
        &self,
        client_id: Seq<char>,
        client_secret: Seq<char>,
        r: Result<AuthToken, ApiError>,
    ) -> bool {
        true
    }

    /// Exchange the credentials for a token, or report why not.
    fn authenticate(&self, client_id: &str, client_secret: &str) -> (r: Result<
        AuthToken,
        ApiError,
    >)
        ensures
            self.authenticate_post(client_id@, client_secret@, r),
    ;
}

/// The form fields `authenticate` sends: `client_id` first, then
/// `client_secret`, as their UTF-8 bytes.
pub open spec fn spec_credentials_fields(client_id: Seq<char>, client_secret: Seq<char>) -> Seq<
    (Seq<u8>, Seq<u8>),
> {
    seq![
        (encode_utf8("client_id"@), encode_utf8(client_id)),
        (encode_utf8("client_secret"@), encode_utf8(client_secret)),
    ]
}

/// The production repository: an [`ApiClient`] for the backend and the
/// path of its authentication endpoint.
///
/// `authenticate` is in two halves, with the transport between them
/// left to the caller: [`Self::authenticate_request`] builds the form
/// POST, and [`Self::authenticate_response`] turns the status and body
/// that came back into the token or the error.
pub struct RestAuthRepository {
    client: ApiClient,
    auth_path: String,
}

impl RestAuthRepository {
    /// The base URL of the backend.
    pub closed spec fn base_url_view(&self) -> Seq<char> {
        self.client.base_url_view()
    }

    /// The path of the authentication endpoint.
    pub closed spec fn auth_path_view(&self) -> Seq<char> {
        self.auth_path@
    }

    /// The token of the owned client — never set: the authentication
    /// endpoint itself is unauthenticated.
    pub closed spec fn token_view(&self) -> Option<Seq<char>> {
        self.client.token_view()
    }

    /// A repository for the backend at `base_url` whose authentication
    /// endpoint is at `auth_path`.
    pub fn new(base_url: &str, auth_path: &str) -> (repo: RestAuthRepository)
        ensures
            repo.base_url_view() == base_url@,
            repo.auth_path_view() == auth_path@,
            repo.token_view() is None,
    {
        RestAuthRepository { client: ApiClient::new(base_url), auth_path: auth_path.to_owned() }
    }

    /// The outbound half of `authenticate`: the form POST to the
    /// authentication endpoint with the ordered fields `client_id`,
    /// `client_secret` — no extra headers, and no bearer token, since
    /// the client of a fresh repository carries none.
    pub fn authenticate_request(&self, client_id: &str, client_secret: &str) -> (req: HttpRequest)
        ensures
            spec_request(
                self.token_view(),
                self.base_url_view(),
                self.auth_path_view(),
                Method::Post,
                Some("application/x-www-form-urlencoded"@),
                Seq::empty(),
                Some(form_encoded(spec_credentials_fields(client_id@, client_secret@))),
                req,
            ),
    {
        let mut fields: Vec<(String, String)> = Vec::new();
        fields.push(("client_id".to_owned(), client_id.to_owned()));
        fields.push(("client_secret".to_owned(), client_secret.to_owned()));
        proof {
            assert(fields_bytes_view(fields@) =~= spec_credentials_fields(
                client_id@,
                client_secret@,
            ));
        }
        self.client.post_form_request(self.auth_path.as_str(), &fields, None)
    }

    /// The inbound half of `authenticate`: a non-2xx status is the
    /// request-level failure carrying that status and body, with no
    /// interpretation beyond non-success; a 2xx body decodes to exactly
    /// what the named reads of that body fix, any mismatch being a
    /// decoding failure.
    pub fn authenticate_response(&self, resp: HttpResponse) -> (r: Result<AuthToken, ApiError>)
        ensures
            !spec_is_success(resp.status) ==> r == Err::<AuthToken, ApiError>(
                (ApiError::RequestFailed { status: resp.status, body: resp.body }),
            ),
            spec_is_success(resp.status) ==> spec_decoded_token(resp.body@, r),
    {
        match require_success(resp) {
            Ok(body) => decode_auth_token(body.as_str()),
            Err(e) => Err(e),
        }
    }
}

/// A repository that answers every call with one fixed, pre-set result:
/// the injectable double that stands in for [`RestAuthRepository`] when
/// [`AuthService`] is exercised without a backend.
///
/// [`AuthService`]: crate::service::AuthService
pub struct FixedAuthRepository {
    response: Result<AuthToken, ApiError>,
}

impl FixedAuthRepository {
    /// The result every call answers with.
    pub closed spec fn response_view(&self) -> Result<AuthToken, ApiError> {
        self.response
    }

    /// A repository that always answers with `response`.
    pub fn new(response: Result<AuthToken, ApiError>) -> (repo: FixedAuthRepository)
        ensures
            repo.response_view() == response,
    {
        FixedAuthRepository { response }
    }
}

impl AuthRepository for FixedAuthRepository {
    /// The fixed result comes back unchanged, whatever the credentials.
    open spec fn authenticate_post(
        &self,
        client_id: Seq<char>,
        client_secret: Seq<char>,
        r: Result<AuthToken, ApiError>,
    ) -> bool {
        r == self.response_view()
    }

    fn authenticate(&self, client_id: &str, client_secret: &str) -> (r: Result<
        AuthToken,
        ApiError,
    >) {
        match &self.response {
            Ok(t) => Ok(t.duplicate()),
            Err(e) => Err(e.duplicate()),
        }
    }
}

} // verus!
