//! The token a successful authentication yields.

use vstd::prelude::*;
use vstd::string::*;

verus! {

/// An OAuth-style token response.
///
/// `access_token` and `token_type` are required: decoding fails without
/// them.  The optional fields are `None` when the response did not carry
/// them, never an empty string.
#[derive(Clone, Debug)]
pub struct AuthToken {
    pub access_token: String,
    pub token_type: String,
    pub expires_in: Option<i64>,
    pub refresh_token: Option<String>,
    pub scope: Option<String>,
}

impl AuthToken {
    /// An exact copy of the token.
    pub fn duplicate(&self) -> (t: AuthToken)
        ensures
            t == *self,
    {
        AuthToken {
            access_token: self.access_token.clone(),
            token_type: self.token_type.clone(),
            expires_in: match &self.expires_in {
                Some(n) => Some(*n),
                None => None,
            },
            refresh_token: match &self.refresh_token {
                Some(s) => Some(s.clone()),
                None => None,
            },
            scope: match &self.scope {
                Some(s) => Some(s.clone()),
                None => None,
            },
        }
    }
}

} // verus!
