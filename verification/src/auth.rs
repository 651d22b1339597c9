//! Authentication: the authorization header, the e-mail login endpoints and
//! the replies they give.
use vstd::prelude::*;

use crate::errors::{ApiError, ClientError};

verus! {

/// The text with every trailing copy of `suffix` removed, one after another.
pub open spec fn spec_trim_end_matches(text: Seq<char>, suffix: Seq<char>) -> Seq<char>
    decreases text.len(),
{
    if suffix.len() > 0 && suffix.len() <= text.len() && text.subrange(
        text.len() - suffix.len(),
        text.len() as int,
    ) == suffix {
        spec_trim_end_matches(text.subrange(0, text.len() - suffix.len()), suffix)
    } else {
        text
    }
}

/// The value of the authorization header that carries a token.
pub open spec fn spec_bearer(token: Seq<char>) -> Seq<char> {
    "Bearer "@ + token
}

/// The value of the authorization header that carries `token`.
pub fn bearer_authorization(token: &str) -> (r: String)
    ensures
        r@ == spec_bearer(token@),
{
    let mut r = "Bearer ".to_owned();
    r.append(token);
    r
}

/// The API address with every trailing `/graphql` removed.
pub fn api_endpoint(api: &str) -> (r: String)
    ensures
        r@ == spec_trim_end_matches(api@, "/graphql"@),
{
    let suffix: &str = "/graphql";
    proof {
        reveal_strlit("/graphql");
    }
    let suffix_len: usize = 8;
    assert(suffix@.len() == 8);
    let suffix_owned = suffix.to_owned();
    let n = api.unicode_len();
    let mut end: usize = n;
    assert(api@.subrange(0, n as int) == api@);
    while end >= suffix_len && api.substring_char(end - suffix_len, end).to_owned() == suffix_owned
        invariant
            end <= n,
            n == api@.len(),
            suffix@.len() == 8,
            suffix_owned@ == suffix@,
            spec_trim_end_matches(api@, suffix@) == spec_trim_end_matches(api@.subrange(0, end as int), suffix@),
        decreases end,
    {
        let ghost t = api@.subrange(0, end as int);
        assert(t.subrange(t.len() - 8, t.len() as int) == api@.subrange(end - 8, end as int));
        assert(t.subrange(0, t.len() - 8) == api@.subrange(0, end - 8));
        end = end - suffix_len;
    }
    proof {
        let t = api@.subrange(0, end as int);
        if end >= 8 {
            assert(t.subrange(t.len() - 8, t.len() as int) == api@.subrange(end - 8, end as int));
        }
    }
    api.substring_char(0, end).to_owned()
}

/// The address of an e-mail authentication route of the backend.
pub open spec fn spec_email_route(api: Seq<char>, route: Seq<char>) -> Seq<char> {
    spec_trim_end_matches(api, "/graphql"@) + route
}

/// The address at which an e-mail code is exchanged for a token.
pub fn email_login_url(api: &str) -> (r: String)
    ensures
        r@ == spec_email_route(api@, "/auth/email/login"@),
{
    let mut r = api_endpoint(api);
    r.append("/auth/email/login");
    r
}

/// The address at which an e-mail code is requested.
pub fn email_code_url(api: &str) -> (r: String)
    ensures
        r@ == spec_email_route(api@, "/auth/email/code"@),
{
    let mut r = api_endpoint(api);
    r.append("/auth/email/code");
    r
}

/// The string that `serde_json` finds in a JSON document by following the
/// object keys of `path`, if the document parses, every key leads to a value
/// and the last value is a string.
pub uninterp spec fn json_string_at(body: Seq<u8>, path: Seq<Seq<char>>) -> Option<Seq<char>>;

/// Parses `body` with `serde_json::from_slice` into a `serde_json::Value` and
/// reads the string under `key` (`Value::get`, then `Value::as_str`).  Claims
/// that the result is the named `json_string_at` of the body and the one-key path.
#[verifier::external_body]
fn json_string_field(body: &[u8], key: &str) -> (r: Option<String>)
    ensures
        match json_string_at(body@, seq![key@]) {
            Some(s) => r matches Some(t) && t@ == s,
            None => r is None,
        },
{
    let value: serde_json::Value = serde_json::from_slice(body).ok()?;
    value.get(key).and_then(|v| v.as_str()).map(|s| s.to_string())
}

/// Parses `body` with `serde_json::from_slice` into a `serde_json::Value` and
/// reads the string under `outer`, then `inner` (indexing, then
/// `Value::as_str`).  Claims that the result is the named `json_string_at` of
/// the body and the two-key path.
#[verifier::external_body]
fn json_string_nested_field(body: &[u8], outer: &str, inner: &str) -> (r: Option<String>)
    ensures
        match json_string_at(body@, seq![outer@, inner@]) {
            Some(s) => r matches Some(t) && t@ == s,
            None => r is None,
        },
{
    let value: serde_json::Value = serde_json::from_slice(body).ok()?;
    value[outer][inner].as_str().map(|s| s.to_string())
}

/// The token in the reply of the e-mail login route: the string at
/// `result.authToken`, else `IssueParsingResponse`.
pub fn email_login_token(body: &[u8]) -> (r: Result<String, ClientError>)
    ensures
        match json_string_at(body@, seq!["result"@, "authToken"@]) {
            Some(s) => r matches Ok(t) && t@ == s,
            None => r == Err::<String, ClientError>(ClientError::ApiError(ApiError::IssueParsingResponse)),
        },
{
    match json_string_nested_field(body, "result", "authToken") {
        Some(t) => Ok(t),
        None => Err(ClientError::ApiError(ApiError::IssueParsingResponse)),
    }
}

/// The login id in the reply of the e-mail code route: the string at
/// `result`, else `IssueParsingResponse`.
pub fn email_login_id(body: &[u8]) -> (r: Result<String, ClientError>)
    ensures
        match json_string_at(body@, seq!["result"@]) {
            Some(s) => r matches Ok(t) && t@ == s,
            None => r == Err::<String, ClientError>(ClientError::ApiError(ApiError::IssueParsingResponse)),
        },
{
    match json_string_field(body, "result") {
        Some(t) => Ok(t),
        None => Err(ClientError::ApiError(ApiError::IssueParsingResponse)),
    }
}


/// What remains after trimming is a prefix of the text that no longer ends
/// with the suffix, and trimming it again changes nothing.
pub proof fn lemma_trim_end_matches(text: Seq<char>, suffix: Seq<char>)
    requires
        suffix.len() > 0,
    ensures
        ({
            let r = spec_trim_end_matches(text, suffix);
            &&& r.len() <= text.len()
            &&& text.subrange(0, r.len() as int) == r
            &&& !(suffix.len() <= r.len() && r.subrange(r.len() - suffix.len(), r.len() as int) == suffix)
            &&& spec_trim_end_matches(r, suffix) == r
        }),
    decreases text.len(),
{
    if suffix.len() <= text.len() && text.subrange(text.len() - suffix.len(), text.len() as int) == suffix {
        let shorter = text.subrange(0, text.len() - suffix.len());
        lemma_trim_end_matches(shorter, suffix);
        let r = spec_trim_end_matches(shorter, suffix);
        assert(text.subrange(0, r.len() as int) == shorter.subrange(0, r.len() as int));
    } else {
        assert(text.subrange(0, text.len() as int) == text);
    }
}

} // verus!
