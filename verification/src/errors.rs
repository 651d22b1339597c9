//! Error types and the messages they show.
use vstd::prelude::*;

verus! {

/// Failures while talking to the backend.
#[derive(Debug, Clone, PartialEq, Eq)]
pub enum ApiError {
    /// The request could not be sent or answered; holds the cause's message.
    IssueGettingResponse(String),
    IssueParsingResponse,
    /// The backend answered with errors; holds them, joined.
    RequestFailedWithError(String),
}

/// Failures while reading a captcha challenge.
#[derive(Debug, Clone, Copy, PartialEq, Eq, Structural)]
pub enum CaptchaError {
    EmptyCaptcha,
}

/// Failures while reading the `me` query.
#[derive(Debug, Clone, Copy, PartialEq, Eq, Structural)]
pub enum MeError {
    FailedToUnwrapMe,
    FailedToUnwrapTransactions,
}

/// The errors that the client's requests return.
#[derive(Debug, Clone, PartialEq, Eq)]
pub enum ClientError {
    MeError(MeError),
    ApiError(ApiError),
}

/// Failures while preparing a payment.
#[derive(Debug, Clone, PartialEq, Eq)]
pub enum PaymentError {
    /// Holds the currency of the wallet that was not found.
    FailedToGetWallet(String),
    /// The backend refused the payment.
    PaymentError,
}

/// Failures while changing the username.
#[derive(Debug, Clone, Copy, PartialEq, Eq, Structural)]
pub enum SetUsernameError {
    FailedToUpdateUsername,
}

/// The kinds of failure of a batch payment.
#[derive(Debug, Clone, Copy, PartialEq, Eq, Structural)]
pub enum BatchError {
    SelfPayment,
    DivisionByZero,
    NoBalance,
    InsufficientBalance,
    Empty,
}

/// The errors of the command-line front end.
#[derive(Debug, Clone, PartialEq, Eq)]
pub enum CliError {
    MeError(MeError),
    ApiError(ApiError),
    PaymentError(PaymentError),
    SetUsernameError(SetUsernameError),
}

impl ApiError {
    pub open spec fn spec_message(self) -> Seq<char> {
        match self {
            ApiError::IssueGettingResponse(cause) => "Issue getting response: "@ + cause@,
            ApiError::IssueParsingResponse => "Issue parsing response"@,
            ApiError::RequestFailedWithError(errors) => "Request Failed with Error: "@ + errors@,
        }
    }

    /// The message shown for this error.
    pub fn message(&self) -> (r: String)
        ensures
            r@ == self.spec_message(),
    {
        match self {
            ApiError::IssueGettingResponse(cause) => {
                let mut s = "Issue getting response: ".to_owned();
                s.append(cause.as_str());
                s
            },
            ApiError::IssueParsingResponse => "Issue parsing response".to_owned(),
            ApiError::RequestFailedWithError(errors) => {
                let mut s = "Request Failed with Error: ".to_owned();
                s.append(errors.as_str());
                s
            },
        }
    }
}

impl CaptchaError {
    pub open spec fn spec_message(self) -> Seq<char> {
        "Empty captcha create challenge"@
    }

    /// The message shown for this error.
    pub fn message(&self) -> (r: String)
        ensures
            r@ == self.spec_message(),
    {
        "Empty captcha create challenge".to_owned()
    }
}

impl MeError {
    pub open spec fn spec_message(self) -> Seq<char> {
        match self {
            MeError::FailedToUnwrapMe => "Failed to unwrap .me"@,
            MeError::FailedToUnwrapTransactions => "Failed to unwrap transactions"@,
        }
    }

    /// The message shown for this error.
    pub fn message(&self) -> (r: String)
        ensures
            r@ == self.spec_message(),
    {
        match self {
            MeError::FailedToUnwrapMe => "Failed to unwrap .me".to_owned(),
            MeError::FailedToUnwrapTransactions => "Failed to unwrap transactions".to_owned(),
        }
    }
}

impl ClientError {
    pub open spec fn spec_message(self) -> Seq<char> {
        match self {
            ClientError::MeError(e) => e.spec_message(),
            ClientError::ApiError(e) => e.spec_message(),
        }
    }

    /// The message shown for this error: that of the error it wraps.
    pub fn message(&self) -> (r: String)
        ensures
            r@ == self.spec_message(),
    {
        match self {
            ClientError::MeError(e) => e.message(),
            ClientError::ApiError(e) => e.message(),
        }
    }
}

impl From<MeError> for ClientError {
    fn from(e: MeError) -> (r: ClientError) {
        ClientError::MeError(e)
    }
}

impl vstd::std_specs::convert::FromSpecImpl<MeError> for ClientError {
    open spec fn obeys_from_spec() -> bool {
        true
    }

    open spec fn from_spec(e: MeError) -> ClientError {
        ClientError::MeError(e)
    }
}

impl From<ApiError> for ClientError {
    fn from(e: ApiError) -> (r: ClientError) {
        ClientError::ApiError(e)
    }
}

impl vstd::std_specs::convert::FromSpecImpl<ApiError> for ClientError {
    open spec fn obeys_from_spec() -> bool {
        true
    }

    open spec fn from_spec(e: ApiError) -> ClientError {
        ClientError::ApiError(e)
    }
}

impl PaymentError {
    pub open spec fn spec_message(self) -> Seq<char> {
        match self {
            PaymentError::FailedToGetWallet(currency) => "Failed to get "@ + currency@ + " wallet"@,
            PaymentError::PaymentError => "Payment failed"@,
        }
    }

    /// The message shown for this error.
    pub fn message(&self) -> (r: String)
        ensures
            r@ == self.spec_message(),
    {
        match self {
            PaymentError::FailedToGetWallet(currency) => {
                let mut s = "Failed to get ".to_owned();
                s.append(currency.as_str());
                s.append(" wallet");
                s
            },
            PaymentError::PaymentError => "Payment failed".to_owned(),
        }
    }
}

impl SetUsernameError {
    pub open spec fn spec_message(self) -> Seq<char> {
        "Failed to update username"@
    }

    /// The message shown for this error.
    pub fn message(&self) -> (r: String)
        ensures
            r@ == self.spec_message(),
    {
        "Failed to update username".to_owned()
    }
}

impl BatchError {
    pub open spec fn spec_message(self) -> Seq<char> {
        match self {
            BatchError::SelfPayment => "BatchError::SelfPayment\n"@,
            BatchError::DivisionByZero => "BatchError::DivisionByZero\n"@,
            BatchError::NoBalance => "BatchError::NoBalance\n"@,
            BatchError::InsufficientBalance => "BatchError::InsufficientBalance\n"@,
            BatchError::Empty => "BatchError::Empty\n"@,
        }
    }

    /// The message shown for this error: its name on a line of its own.
    pub fn message(&self) -> (r: String)
        ensures
            r@ == self.spec_message(),
    {
        match self {
            BatchError::SelfPayment => "BatchError::SelfPayment\n".to_owned(),
            BatchError::DivisionByZero => "BatchError::DivisionByZero\n".to_owned(),
            BatchError::NoBalance => "BatchError::NoBalance\n".to_owned(),
            BatchError::InsufficientBalance => "BatchError::InsufficientBalance\n".to_owned(),
            BatchError::Empty => "BatchError::Empty\n".to_owned(),
        }
    }
}

impl CliError {
    pub open spec fn spec_message(self) -> Seq<char> {
        match self {
            CliError::MeError(e) => e.spec_message(),
            CliError::ApiError(e) => e.spec_message(),
            CliError::PaymentError(e) => e.spec_message(),
            CliError::SetUsernameError(e) => e.spec_message(),
        }
    }

    /// The message shown for this error: that of the error it wraps.
    pub fn message(&self) -> (r: String)
        ensures
            r@ == self.spec_message(),
    {
        match self {
            CliError::MeError(e) => e.message(),
            CliError::ApiError(e) => e.message(),
            CliError::PaymentError(e) => e.message(),
            CliError::SetUsernameError(e) => e.message(),
        }
    }
}

impl From<MeError> for CliError {
    fn from(e: MeError) -> (r: CliError) {
        CliError::MeError(e)
    }
}

impl vstd::std_specs::convert::FromSpecImpl<MeError> for CliError {
    open spec fn obeys_from_spec() -> bool {
        true
    }

    open spec fn from_spec(e: MeError) -> CliError {
        CliError::MeError(e)
    }
}

impl From<ApiError> for CliError {
    fn from(e: ApiError) -> (r: CliError) {
        CliError::ApiError(e)
    }
}

impl vstd::std_specs::convert::FromSpecImpl<ApiError> for CliError {
    open spec fn obeys_from_spec() -> bool {
        true
    }

    open spec fn from_spec(e: ApiError) -> CliError {
        CliError::ApiError(e)
    }
}

impl From<PaymentError> for CliError {
    fn from(e: PaymentError) -> (r: CliError) {
        CliError::PaymentError(e)
    }
}

impl vstd::std_specs::convert::FromSpecImpl<PaymentError> for CliError {
    open spec fn obeys_from_spec() -> bool {
        true
    }

    open spec fn from_spec(e: PaymentError) -> CliError {
        CliError::PaymentError(e)
    }
}

impl From<SetUsernameError> for CliError {
    fn from(e: SetUsernameError) -> (r: CliError) {
        CliError::SetUsernameError(e)
    }
}

impl vstd::std_specs::convert::FromSpecImpl<SetUsernameError> for CliError {
    open spec fn obeys_from_spec() -> bool {
        true
    }

    open spec fn from_spec(e: SetUsernameError) -> CliError {
        CliError::SetUsernameError(e)
    }
}

} // verus!
