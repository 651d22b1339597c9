//! How the client reads the backend's replies.
//!
//! Each request of the client ends by looking at the data of a GraphQL reply:
//! a missing payload, a missing field, or a non-empty list of user errors
//! each becomes an error; the functions here make those decisions.  The
//! errors of a reply are handed in as their debug text, one string each.
use vstd::prelude::*;

use crate::balance::view_strings;
use crate::errors::{ApiError, CliError, ClientError, MeError, PaymentError, SetUsernameError};

verus! {

/// The texts joined with a separator between each two of them.
pub open spec fn spec_join(items: Seq<Seq<char>>, sep: Seq<char>) -> Seq<char>
    decreases items.len(),
{
    if items.len() == 0 {
        Seq::empty()
    } else if items.len() == 1 {
        items[0]
    } else {
        spec_join(items.drop_last(), sep) + sep + items.last()
    }
}

/// The message of a request that the backend answered with errors: the
/// errors' texts joined by `", "`.
pub open spec fn spec_errors_text(errors: Seq<String>) -> Seq<char> {
    spec_join(view_strings(errors), ", "@)
}

/// Joins the errors' texts with `", "` between each two.
pub fn join_errors(errors: &Vec<String>) -> (r: String)
    ensures
        r@ == spec_errors_text(errors@),
{
    let ghost items = view_strings(errors@);
    let mut r = String::new();
    let mut i: usize = 0;
    while i < errors.len()
        invariant
            i <= errors.len(),
            items == view_strings(errors@),
            r@ == spec_join(items.take(i as int), ", "@),
        decreases errors.len() - i,
    {
        assert(items.take(i + 1).drop_last() == items.take(i as int));
        if i != 0 {
            r.append(", ");
        } else {
            assert(items.take(0) == Seq::<Seq<char>>::empty());
        }
        r.append(errors[i].as_str());
        i = i + 1;
    }
    assert(items.take(errors.len() as int) == items);
    r
}

/// The payload of a reply, or `IssueParsingResponse` when it has none.
pub fn response_data<T>(data: Option<T>) -> (r: Result<T, ClientError>)
    ensures
        match data {
            Some(d) => r == Ok::<T, ClientError>(d),
            None => r == Err::<T, ClientError>(ClientError::ApiError(ApiError::IssueParsingResponse)),
        },
{
    match data {
        Some(d) => Ok(d),
        None => Err(ClientError::ApiError(ApiError::IssueParsingResponse)),
    }
}

/// The outcome of a mutation from the errors it reports: success when there
/// are none, else `RequestFailedWithError` with their joined texts.
pub fn mutation_result(errors: &Vec<String>) -> (r: Result<(), ClientError>)
    ensures
        errors@.len() == 0 ==> r is Ok,
        errors@.len() > 0 ==> (r matches Err(ClientError::ApiError(ApiError::RequestFailedWithError(m)))
            && m@ == spec_errors_text(errors@)),
{
    if errors.len() == 0 {
        Ok(())
    } else {
        Err(ClientError::ApiError(ApiError::RequestFailedWithError(join_errors(errors))))
    }
}


/// The token of a login reply: the token when there is one, else
/// `RequestFailedWithError` with the joined texts of the reply's errors.
pub fn login_token(auth_token: Option<String>, errors: &Vec<String>) -> (r: Result<String, ClientError>)
    ensures
        match auth_token {
            Some(t) => r matches Ok(s) && s@ == t@,
            None => r matches Err(ClientError::ApiError(ApiError::RequestFailedWithError(m)))
                && m@ == spec_errors_text(errors@),
        },
{
    match auth_token {
        Some(t) => Ok(t),
        None => Err(ClientError::ApiError(ApiError::RequestFailedWithError(join_errors(errors)))),
    }
}

/// Why a login without a token failed, in the command-line client.
#[derive(Debug, Clone, Copy, PartialEq, Eq, Structural)]
pub enum LoginFailure {
    /// The reply has no token and no error.
    Unknown,
    /// The reply has no token and lists errors.
    GraphqlErrors,
}

impl LoginFailure {
    pub open spec fn spec_message(self) -> Seq<char> {
        match self {
            LoginFailure::Unknown => "request failed (unknown)"@,
            LoginFailure::GraphqlErrors => "request failed (graphql errors)"@,
        }
    }

    /// The message shown for this failure.
    pub fn message(&self) -> (r: String)
        ensures
            r@ == self.spec_message(),
    {
        match self {
            LoginFailure::Unknown => "request failed (unknown)".to_owned(),
            LoginFailure::GraphqlErrors => "request failed (graphql errors)".to_owned(),
        }
    }
}

/// The outcome of a login reply in the command-line client: the token, or
/// which of the two failures it is.
pub fn cli_login_token(auth_token: Option<String>, errors: &Vec<String>) -> (r: Result<String, LoginFailure>)
    ensures
        match auth_token {
            Some(t) => r matches Ok(s) && s@ == t@,
            None => if errors@.len() == 0 {
                r == Err::<String, LoginFailure>(LoginFailure::Unknown)
            } else {
                r == Err::<String, LoginFailure>(LoginFailure::GraphqlErrors)
            },
        },
{
    match auth_token {
        Some(t) => Ok(t),
        None => if errors.len() == 0 {
            Err(LoginFailure::Unknown)
        } else {
            Err(LoginFailure::GraphqlErrors)
        },
    }
}

/// The `me` record of a reply, or `FailedToUnwrapMe` when it has none.
pub fn unwrap_me<T>(me: Option<T>) -> (r: Result<T, ClientError>)
    ensures
        match me {
            Some(m) => r == Ok::<T, ClientError>(m),
            None => r == Err::<T, ClientError>(ClientError::MeError(MeError::FailedToUnwrapMe)),
        },
{
    match me {
        Some(m) => Ok(m),
        None => Err(ClientError::MeError(MeError::FailedToUnwrapMe)),
    }
}

/// The transactions of a reply to the transactions query, given as the
/// `me` record's transactions (outer `None`: no `me`; inner `None`: no
/// transactions).
pub fn unwrap_transactions<T>(me_transactions: Option<Option<T>>) -> (r: Result<T, ClientError>)
    ensures
        match me_transactions {
            Some(Some(t)) => r == Ok::<T, ClientError>(t),
            Some(None) => r == Err::<T, ClientError>(
                ClientError::MeError(MeError::FailedToUnwrapTransactions),
            ),
            None => r == Err::<T, ClientError>(ClientError::MeError(MeError::FailedToUnwrapMe)),
        },
{
    match me_transactions {
        Some(Some(t)) => Ok(t),
        Some(None) => Err(ClientError::MeError(MeError::FailedToUnwrapTransactions)),
        None => Err(ClientError::MeError(MeError::FailedToUnwrapMe)),
    }
}

/// The globals of a reply to the globals query (outer `None`: no payload;
/// inner `None`: no globals); either absence is `IssueParsingResponse`.
pub fn unwrap_globals<T>(globals: Option<Option<T>>) -> (r: Result<T, ClientError>)
    ensures
        match globals {
            Some(Some(g)) => r == Ok::<T, ClientError>(g),
            _ => r == Err::<T, ClientError>(ClientError::ApiError(ApiError::IssueParsingResponse)),
        },
{
    match globals {
        Some(Some(g)) => Ok(g),
        _ => Err(ClientError::ApiError(ApiError::IssueParsingResponse)),
    }
}

/// What became of a request for a phone code sent without a captcha.
#[derive(Debug, Clone, Copy, PartialEq, Eq, Structural)]
pub enum AuthCodeOutcome {
    Sent,
    GraphqlErrors,
    NotSent,
    Unknown,
}

impl AuthCodeOutcome {
    /// The message logged for a failed request; empty for a sent code.
    pub open spec fn spec_message(self) -> Seq<char> {
        match self {
            AuthCodeOutcome::Sent => Seq::empty(),
            AuthCodeOutcome::GraphqlErrors => "request failed (graphql errors)"@,
            AuthCodeOutcome::NotSent => "request failed (success is false)"@,
            AuthCodeOutcome::Unknown => "request failed (unknown)"@,
        }
    }

    /// The message logged for this outcome (empty for a sent code).
    pub fn message(&self) -> (r: String)
        ensures
            r@ == self.spec_message(),
    {
        match self {
            AuthCodeOutcome::Sent => String::new(),
            AuthCodeOutcome::GraphqlErrors => "request failed (graphql errors)".to_owned(),
            AuthCodeOutcome::NotSent => "request failed (success is false)".to_owned(),
            AuthCodeOutcome::Unknown => "request failed (unknown)".to_owned(),
        }
    }
}

/// Classifies the reply to a phone-code request: sent when it reports
/// success, else the reply's errors when it lists some, else a plain failure
/// or an unknown outcome.
pub fn auth_code_outcome(success: Option<bool>, errors: &Vec<String>) -> (r: AuthCodeOutcome)
    ensures
        r == (if success == Some(true) {
            AuthCodeOutcome::Sent
        } else if errors@.len() > 0 {
            AuthCodeOutcome::GraphqlErrors
        } else if success == Some(false) {
            AuthCodeOutcome::NotSent
        } else {
            AuthCodeOutcome::Unknown
        }),
{
    match success {
        Some(true) => AuthCodeOutcome::Sent,
        _ if errors.len() > 0 => AuthCodeOutcome::GraphqlErrors,
        Some(false) => AuthCodeOutcome::NotSent,
        _ => AuthCodeOutcome::Unknown,
    }
}


/// The outcome of a mutation in the command-line client's error type:
/// success when it reports no error, else `RequestFailedWithError` with the
/// joined texts of its errors.
pub fn cli_mutation_result(errors: &Vec<String>) -> (r: Result<(), CliError>)
    ensures
        errors@.len() == 0 ==> r is Ok,
        errors@.len() > 0 ==> (r matches Err(CliError::ApiError(ApiError::RequestFailedWithError(m)))
            && m@ == spec_errors_text(errors@)),
{
    if errors.len() == 0 {
        Ok(())
    } else {
        Err(CliError::ApiError(ApiError::RequestFailedWithError(join_errors(errors))))
    }
}

/// The outcome of a USD payment in the command-line client: any reported
/// error is a `PaymentError`.
pub fn usd_payment_result(errors: &Vec<String>) -> (r: Result<(), CliError>)
    ensures
        errors@.len() == 0 ==> r is Ok,
        errors@.len() > 0 ==> r == Err::<(), CliError>(CliError::PaymentError(PaymentError::PaymentError)),
{
    if errors.len() != 0 {
        Err(CliError::PaymentError(PaymentError::PaymentError))
    } else {
        Ok(())
    }
}

/// The outcome of a username change in the command-line client: any reported
/// error is `FailedToUpdateUsername`.
pub fn set_username_result(errors: &Vec<String>) -> (r: Result<(), CliError>)
    ensures
        errors@.len() == 0 ==> r is Ok,
        errors@.len() > 0 ==> r == Err::<(), CliError>(
            CliError::SetUsernameError(SetUsernameError::FailedToUpdateUsername),
        ),
{
    if errors.len() != 0 {
        Err(CliError::SetUsernameError(SetUsernameError::FailedToUpdateUsername))
    } else {
        Ok(())
    }
}


/// Why the command-line client found no globals in a reply.
#[derive(Debug, Clone, Copy, PartialEq, Eq, Structural)]
pub enum GlobalsFailure {
    /// The reply has no payload.
    BadResponse,
    /// The payload has no globals.
    EmptyResponse,
}

impl GlobalsFailure {
    pub open spec fn spec_message(self) -> Seq<char> {
        match self {
            GlobalsFailure::BadResponse => "bad response from server"@,
            GlobalsFailure::EmptyResponse => "empty response"@,
        }
    }

    /// The message shown for this failure.
    pub fn message(&self) -> (r: String)
        ensures
            r@ == self.spec_message(),
    {
        match self {
            GlobalsFailure::BadResponse => "bad response from server".to_owned(),
            GlobalsFailure::EmptyResponse => "empty response".to_owned(),
        }
    }
}

/// The globals of a reply in the command-line client (outer `None`: no
/// payload; inner `None`: no globals).
pub fn cli_globals<T>(globals: Option<Option<T>>) -> (r: Result<T, GlobalsFailure>)
    ensures
        match globals {
            Some(Some(g)) => r == Ok::<T, GlobalsFailure>(g),
            Some(None) => r == Err::<T, GlobalsFailure>(GlobalsFailure::EmptyResponse),
            None => r == Err::<T, GlobalsFailure>(GlobalsFailure::BadResponse),
        },
{
    match globals {
        Some(Some(g)) => Ok(g),
        Some(None) => Err(GlobalsFailure::EmptyResponse),
        None => Err(GlobalsFailure::BadResponse),
    }
}

} // verus!
