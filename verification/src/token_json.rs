//! Decoding the JSON body of an authentication response.
//!
//! The per-key reads go through serde_json behind trusted readers whose
//! results carry names: what the string member under a key is, and what
//! the integer member under a key is, each a function of the response
//! text alone.  The verified assembly then fixes the outcome exactly: a
//! token precisely when the two required members are present, every
//! field equal to the member under its key.

use vstd::prelude::*;
use vstd::string::*;

use crate::api::ApiError;
use crate::headers::opt_string_view;
use crate::models::AuthToken;

verus! {

/// The string member under `key` of the JSON object written in `text`:
/// its characters when `text` parses to an object carrying a string
/// there, nothing otherwise — in particular nothing, for every key,
/// when `text` is not valid JSON.
pub uninterp spec fn json_string_field_of(text: Seq<char>, key: Seq<char>) -> Option<Seq<char>>;

/// The integer member under `key` of the JSON object written in `text`:
/// its value when `text` parses to an object carrying an integer that
/// fits an `i64` there, nothing otherwise.
pub uninterp spec fn json_integer_field_of(text: Seq<char>, key: Seq<char>) -> Option<i64>;

/// Relies on serde_json::from_str, Value::get and Value::as_str: the
/// string member under `key`, a function of `text` and `key` alone.
#[verifier::external_body]
fn json_string_field(text: &str, key: &str) -> (r: Option<String>)
    ensures
        opt_string_view(r) == json_string_field_of(text@, key@),
{
    match serde_json::from_str::<serde_json::Value>(text) {
        Ok(value) => value.get(key).and_then(|m| m.as_str()).map(|s| s.to_string()),
        Err(_) => None,
    }
}

/// Relies on serde_json::from_str, Value::get and Value::as_i64: the
/// integer member under `key`, a function of `text` and `key` alone.
#[verifier::external_body]
fn json_integer_field(text: &str, key: &str) -> (r: Option<i64>)
    ensures
        r == json_integer_field_of(text@, key@),
{
    match serde_json::from_str::<serde_json::Value>(text) {
        Ok(value) => value.get(key).and_then(|m| m.as_i64()),
        Err(_) => None,
    }
}

/// What decoding an authentication body yields, over the named reads:
/// a token exactly when both required members are present, each field
/// exactly the member under its key — a member of another JSON type
/// counts as absent — and any failure a decoding failure.
pub open spec fn spec_decoded_token(body: Seq<char>, r: Result<AuthToken, ApiError>) -> bool {
    &&& (r is Ok <==> (json_string_field_of(body, "access_token"@) is Some
        && json_string_field_of(body, "token_type"@) is Some))
    &&& (r matches Ok(t) ==> {
        &&& Some(t.access_token@) == json_string_field_of(body, "access_token"@)
        &&& Some(t.token_type@) == json_string_field_of(body, "token_type"@)
        &&& t.expires_in == json_integer_field_of(body, "expires_in"@)
        &&& opt_string_view(t.refresh_token) == json_string_field_of(body, "refresh_token"@)
        &&& opt_string_view(t.scope) == json_string_field_of(body, "scope"@)
    })
    &&& (r matches Err(e) ==> e is Decode)
}

/// Assemble a token from the fields read out of an authentication
/// response: it succeeds exactly when both required fields are present,
/// and keeps every optional field as it came — absent stays absent,
/// never an empty string.
pub fn token_from_parts(
    access_token: Option<String>,
    token_type: Option<String>,
    expires_in: Option<i64>,
    refresh_token: Option<String>,
    scope: Option<String>,
) -> (r: Result<AuthToken, ApiError>)
    ensures
        r is Ok <==> (access_token is Some && token_type is Some),
        r matches Ok(t) ==> ({
            &&& Some(t.access_token) == access_token
            &&& Some(t.token_type) == token_type
            &&& t.expires_in == expires_in
            &&& t.refresh_token == refresh_token
            &&& t.scope == scope
        }),
        r matches Err(e) ==> e is Decode,
{
    match (access_token, token_type) {
        (Some(at), Some(tt)) => Ok(
            AuthToken {
                access_token: at,
                token_type: tt,
                expires_in,
                refresh_token,
                scope,
            },
        ),
        _ => Err(ApiError::Decode("missing access_token or token_type".to_owned())),
    }
}

/// Decode the body of a successful authentication response into a
/// token: exactly what the named reads of the body fix — a token
/// precisely when `access_token` and `token_type` are present, every
/// field the member under its key, and any failure a decoding failure.
pub fn decode_auth_token(body: &str) -> (r: Result<AuthToken, ApiError>)
    ensures
        spec_decoded_token(body@, r),
{
    let access_token = json_string_field(body, "access_token");
    let token_type = json_string_field(body, "token_type");
    let expires_in = json_integer_field(body, "expires_in");
    let refresh_token = json_string_field(body, "refresh_token");
    let scope = json_string_field(body, "scope");
    token_from_parts(access_token, token_type, expires_in, refresh_token, scope)
}

} // verus!
