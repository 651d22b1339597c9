//! Checks the command-line front end makes before it talks to the backend.
use vstd::prelude::*;

use crate::decimal::Amount;
use crate::types::Wallet;

verus! {

/// Failures of the command line's own checks.
#[derive(Debug, Clone, PartialEq, Eq)]
pub enum CommandError {
    /// A payment from a wallet was asked for without an amount in that
    /// wallet's unit.
    MissingAmount,
    /// The API address is not a URL; holds the address.
    InvalidApi(String),
    /// The token cannot stand in an HTTP header.
    InvalidHeaderValue,
}

impl CommandError {
    pub open spec fn spec_message(self) -> Seq<char> {
        match self {
            CommandError::MissingAmount => "Appropriate amount (sats/cents) not provided"@,
            CommandError::InvalidApi(api) => "API: "@ + api@ + " is not valid"@,
            CommandError::InvalidHeaderValue => "failed to parse header value"@,
        }
    }

    /// The message shown for this error.
    pub fn message(&self) -> (r: String)
        ensures
            r@ == self.spec_message(),
    {
        match self {
            CommandError::MissingAmount => "Appropriate amount (sats/cents) not provided".to_owned(),
            CommandError::InvalidApi(api) => {
                let mut s = "API: ".to_owned();
                s.append(api.as_str());
                s.append(" is not valid");
                s
            },
            CommandError::InvalidHeaderValue => "failed to parse header value".to_owned(),
        }
    }
}

/// The amount of a payment from `wallet`: sats for the BTC wallet, cents for
/// the USD wallet; the other amount is ignored.
pub fn pay_amount(wallet: Wallet, cents: Option<Amount>, sats: Option<Amount>) -> (r: Result<Amount, CommandError>)
    ensures
        match wallet {
            Wallet::Btc => match sats {
                Some(a) => r == Ok::<Amount, CommandError>(a),
                None => r == Err::<Amount, CommandError>(CommandError::MissingAmount),
            },
            Wallet::Usd => match cents {
                Some(a) => r == Ok::<Amount, CommandError>(a),
                None => r == Err::<Amount, CommandError>(CommandError::MissingAmount),
            },
        },
{
    match wallet {
        Wallet::Btc => match sats {
            Some(a) => Ok(a),
            None => Err(CommandError::MissingAmount),
        },
        Wallet::Usd => match cents {
            Some(a) => Ok(a),
            None => Err(CommandError::MissingAmount),
        },
    }
}

/// Whether the `url` crate parses the text as an absolute URL.
pub uninterp spec fn url_is_valid(text: Seq<char>) -> bool;

/// Parses `text` with `url::Url::parse`.  Claims that it succeeds exactly
/// when the named `url_is_valid` holds of the text.
#[verifier::external_body]
fn url_parses(text: &str) -> (r: bool)
    ensures
        r == url_is_valid(text@),
{
    url::Url::parse(text).is_ok()
}

/// Checks that the API address is a URL.
pub fn check_api_url(api: &str) -> (r: Result<(), CommandError>)
    ensures
        url_is_valid(api@) ==> r is Ok,
        !url_is_valid(api@) ==> (r matches Err(CommandError::InvalidApi(a)) && a@ == api@),
{
    if url_parses(api) {
        Ok(())
    } else {
        Err(CommandError::InvalidApi(api.to_owned()))
    }
}

/// A character that an HTTP header value may hold: any but the ASCII
/// control characters other than tab.
pub open spec fn spec_header_char_ok(c: char) -> bool {
    (c as u32 >= 32 && c as u32 != 127) || c == '\t'
}

/// Whether `reqwest::header::HeaderValue::from_str` accepts the text.  That
/// function accepts it exactly when each of its UTF-8 bytes is a tab, or at
/// least 32 and not 127; as every byte of a multi-byte character is at least
/// 128, that is when every character is allowed by `spec_header_char_ok`.
#[verifier::external_body]
fn header_value_is_valid(text: &str) -> (r: bool)
    ensures
        r <==> forall|i: int| 0 <= i < text@.len() ==> spec_header_char_ok(#[trigger] text@[i]),
{
    reqwest::header::HeaderValue::from_str(text).is_ok()
}

/// The text of the authorization header for a token, `Bearer <token>`, once
/// it is checked to be a valid header value; an error when the token holds a
/// control character other than tab.
pub fn authorization_header(token: &str) -> (r: Result<String, CommandError>)
    ensures
        r is Ok <==> forall|i: int| 0 <= i < token@.len() ==> spec_header_char_ok(#[trigger] token@[i]),
        r matches Ok(s) ==> s@ == crate::auth::spec_bearer(token@),
        r is Err ==> r == Err::<String, CommandError>(CommandError::InvalidHeaderValue),
{
    let value = crate::auth::bearer_authorization(token);
    proof {
        reveal_strlit("Bearer ");
        let b = "Bearer "@;
        assert(value@ == b + token@);
        assert forall|i: int| 0 <= i < b.len() implies spec_header_char_ok(#[trigger] value@[i]) by {
            assert(value@[i] == b[i]);
        }
        assert forall|i: int| 0 <= i < token@.len() implies value@[i + 7] == token@[i] by {}
    }
    if header_value_is_valid(value.as_str()) {
        Ok(value)
    } else {
        Err(CommandError::InvalidHeaderValue)
    }
}

} // verus!
