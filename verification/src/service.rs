//! The login facade over the authentication capability.

use vstd::prelude::*;

use crate::api::ApiError;
use crate::models::AuthToken;
use crate::repository::AuthRepository;

verus! {

/// The stable call surface that production code and tests share:
/// generic over the [`AuthRepository`] capability, never over a
/// concrete implementation, so a test double substitutes without
/// touching any call site.  Stateless beyond the one injected
/// repository.
pub struct AuthService<R: AuthRepository> {
    repo: R,
}

impl<R: AuthRepository> AuthService<R> {
    /// The injected repository this service delegates to.
    pub closed spec fn repo_view(&self) -> R {
        self.repo
    }

    /// A service over the given repository.
    pub fn new(repo: R) -> (s: AuthService<R>)
        ensures
            s.repo_view() == repo,
    {
        AuthService { repo }
    }

    /// Log in with client credentials: a pure pass-through to the
    /// injected repository.  The result is one the repository's own
    /// promise holds of, unchanged — no retry, no default, no
    /// substitution.  The guarantee is exactly as strong as that
    /// promise: where it pins the result (as
    /// [`FixedAuthRepository`](crate::repository::FixedAuthRepository)'s
    /// does), the value comes back verbatim; a repository that promises
    /// nothing leaves nothing to state here.
    pub fn login(&self, client_id: &str, client_secret: &str) -> (r: Result<AuthToken, ApiError>)
        ensures
            self.repo_view().authenticate_post(client_id@, client_secret@, r),
    {
        self.repo.authenticate(client_id, client_secret)
    }
}

} // verus!
