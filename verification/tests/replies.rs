use galoy_cli::auth::{
    api_endpoint, bearer_authorization, email_code_url, email_login_id, email_login_token,
    email_login_url,
};
use galoy_cli::errors::{
    ApiError, BatchError, CaptchaError, CliError, ClientError, MeError, PaymentError,
    SetUsernameError,
};
use galoy_cli::queries::{
    captcha_challenge_from, captcha_request_input, phone_code_notice, CaptchaChallenge,
    CaptchaCreateChallengeCaptchaCreateChallenge, CaptchaCreateChallengeResult, GeetestResponse,
    ResponseData,
};
use galoy_cli::responses::{cli_globals, GlobalsFailure};
use galoy_cli::responses::{
    auth_code_outcome, usd_payment_result, cli_login_token, cli_mutation_result, join_errors, login_token,
    mutation_result, response_data, set_username_result, unwrap_globals, unwrap_me,
    unwrap_transactions, AuthCodeOutcome, LoginFailure,
};

fn strings(items: &[&str]) -> Vec<String> {
    items.iter().map(|s| s.to_string()).collect()
}

#[test]
fn errors_are_joined_with_commas() {
    assert_eq!(join_errors(&strings(&[])), "");
    assert_eq!(join_errors(&strings(&["a"])), "a");
    assert_eq!(join_errors(&strings(&["a", "b", "c"])), "a, b, c");
}

#[test]
fn mutation_outcomes() {
    assert!(mutation_result(&vec![]).is_ok());
    let e = mutation_result(&strings(&["E1", "E2"])).unwrap_err();
    assert_eq!(e, ClientError::ApiError(ApiError::RequestFailedWithError("E1, E2".to_string())));
    assert_eq!(e.message(), "Request Failed with Error: E1, E2");
    assert!(cli_mutation_result(&vec![]).is_ok());
    assert_eq!(
        cli_mutation_result(&strings(&["x"])).unwrap_err(),
        CliError::ApiError(ApiError::RequestFailedWithError("x".to_string()))
    );
    assert!(set_username_result(&vec![]).is_ok());
    assert_eq!(
        set_username_result(&strings(&["taken"])).unwrap_err(),
        CliError::SetUsernameError(SetUsernameError::FailedToUpdateUsername)
    );
}

#[test]
fn login_outcomes() {
    assert_eq!(login_token(Some("tok".to_string()), &strings(&["ignored"])).unwrap(), "tok");
    assert_eq!(
        login_token(None, &strings(&["bad code"])).unwrap_err(),
        ClientError::ApiError(ApiError::RequestFailedWithError("bad code".to_string()))
    );
    assert_eq!(
        login_token(None, &vec![]).unwrap_err(),
        ClientError::ApiError(ApiError::RequestFailedWithError(String::new()))
    );
    assert_eq!(cli_login_token(Some("t".to_string()), &vec![]).unwrap(), "t");
    assert_eq!(cli_login_token(None, &vec![]).unwrap_err(), LoginFailure::Unknown);
    assert_eq!(cli_login_token(None, &strings(&["e"])).unwrap_err(), LoginFailure::GraphqlErrors);
    assert_eq!(LoginFailure::Unknown.message(), "request failed (unknown)");
    assert_eq!(LoginFailure::GraphqlErrors.message(), "request failed (graphql errors)");
}

#[test]
fn missing_parts_of_replies() {
    assert_eq!(response_data(Some(3)).unwrap(), 3);
    assert_eq!(
        response_data::<u8>(None).unwrap_err(),
        ClientError::ApiError(ApiError::IssueParsingResponse)
    );
    assert_eq!(unwrap_me::<u8>(None).unwrap_err(), ClientError::MeError(MeError::FailedToUnwrapMe));
    assert_eq!(unwrap_me(Some(1)).unwrap(), 1);
    assert_eq!(unwrap_transactions(Some(Some(7))).unwrap(), 7);
    assert_eq!(
        unwrap_transactions::<u8>(Some(None)).unwrap_err(),
        ClientError::MeError(MeError::FailedToUnwrapTransactions)
    );
    assert_eq!(
        unwrap_transactions::<u8>(None).unwrap_err(),
        ClientError::MeError(MeError::FailedToUnwrapMe)
    );
    assert_eq!(unwrap_globals(Some(Some(2))).unwrap(), 2);
    assert!(unwrap_globals::<u8>(Some(None)).is_err());
    assert!(unwrap_globals::<u8>(None).is_err());
}

#[test]
fn phone_code_outcomes() {
    assert_eq!(auth_code_outcome(Some(true), &strings(&["e"])), AuthCodeOutcome::Sent);
    assert_eq!(auth_code_outcome(Some(false), &strings(&["e"])), AuthCodeOutcome::GraphqlErrors);
    assert_eq!(auth_code_outcome(None, &strings(&["e"])), AuthCodeOutcome::GraphqlErrors);
    assert_eq!(auth_code_outcome(Some(false), &vec![]), AuthCodeOutcome::NotSent);
    assert_eq!(auth_code_outcome(None, &vec![]), AuthCodeOutcome::Unknown);
    assert_eq!(AuthCodeOutcome::NotSent.message(), "request failed (success is false)");
    assert_eq!(AuthCodeOutcome::Sent.message(), "");
}

#[test]
fn error_messages() {
    assert_eq!(ApiError::IssueParsingResponse.message(), "Issue parsing response");
    assert_eq!(
        ApiError::IssueGettingResponse("timeout".to_string()).message(),
        "Issue getting response: timeout"
    );
    assert_eq!(CaptchaError::EmptyCaptcha.message(), "Empty captcha create challenge");
    assert_eq!(MeError::FailedToUnwrapMe.message(), "Failed to unwrap .me");
    assert_eq!(ClientError::from(MeError::FailedToUnwrapMe).message(), "Failed to unwrap .me");
    assert_eq!(
        ClientError::from(ApiError::IssueParsingResponse),
        ClientError::ApiError(ApiError::IssueParsingResponse)
    );
    assert_eq!(
        PaymentError::FailedToGetWallet("USD".to_string()).message(),
        "Failed to get USD wallet"
    );
    assert_eq!(SetUsernameError::FailedToUpdateUsername.message(), "Failed to update username");
    assert_eq!(BatchError::SelfPayment.message(), "BatchError::SelfPayment\n");
    assert_eq!(BatchError::Empty.message(), "BatchError::Empty\n");
    assert_eq!(
        CliError::from(PaymentError::FailedToGetWallet("BTC".to_string())).message(),
        "Failed to get BTC wallet"
    );
}

#[test]
fn authorization_and_endpoints() {
    assert_eq!(bearer_authorization("abc"), "Bearer abc");
    assert_eq!(api_endpoint("http://localhost:4002/graphql"), "http://localhost:4002");
    assert_eq!(api_endpoint("http://h/graphql/graphql"), "http://h");
    assert_eq!(api_endpoint("http://h/graphqlx"), "http://h/graphqlx");
    assert_eq!(api_endpoint("/graphql"), "");
    assert_eq!(api_endpoint("https://api.staging.galoy.io"), "https://api.staging.galoy.io");
    assert_eq!(
        email_login_url("https://api.staging.galoy.io/graphql"),
        "https://api.staging.galoy.io/auth/email/login"
    );
    assert_eq!(email_code_url("http://x/graphql"), "http://x/auth/email/code");
}

#[test]
fn email_replies() {
    let body = br#"{"result":{"authToken":"ory_st_123"}}"#;
    assert_eq!(email_login_token(body).unwrap(), "ory_st_123");
    assert_eq!(
        email_login_token(br#"{"result":{}}"#).unwrap_err(),
        ClientError::ApiError(ApiError::IssueParsingResponse)
    );
    assert!(email_login_token(b"not json").is_err());
    assert!(email_login_token(br#"{"result":{"authToken":5}}"#).is_err());
    assert_eq!(email_login_id(br#"{"result":"login-id-1"}"#).unwrap(), "login-id-1");
    assert!(email_login_id(br#"{"result":{"a":1}}"#).is_err());
    assert!(email_login_id(br#"{}"#).is_err());
}

fn captcha_reply(result: Option<CaptchaCreateChallengeResult>) -> ResponseData {
    ResponseData {
        captcha_create_challenge: CaptchaCreateChallengeCaptchaCreateChallenge { result },
    }
}

#[test]
fn captcha_challenges() {
    let reply = captcha_reply(Some(CaptchaCreateChallengeResult {
        id: "i".repeat(32),
        challenge_code: "c".repeat(32),
        new_captcha: true,
        failback_mode: false,
    }));
    let c = CaptchaChallenge::try_from(reply.clone()).unwrap();
    assert_eq!(c.id.len(), 32);
    assert_eq!(c.challenge_code.len(), 32);
    assert!(c.new_captcha);
    assert!(!c.failback_mode);
    assert!(captcha_challenge_from(Some(reply)).is_ok());
    assert_eq!(
        CaptchaChallenge::try_from(captcha_reply(None)).unwrap_err(),
        CaptchaError::EmptyCaptcha
    );
    assert_eq!(
        captcha_challenge_from(Some(captcha_reply(None))).unwrap_err(),
        ClientError::ApiError(ApiError::IssueGettingResponse(
            "Empty captcha create challenge".to_string()
        ))
    );
    assert_eq!(
        captcha_challenge_from(None).unwrap_err(),
        ClientError::ApiError(ApiError::IssueParsingResponse)
    );
}

#[test]
fn solved_captcha_requests_a_code() {
    let solved = GeetestResponse {
        geetest_challenge: "ch".to_string(),
        geetest_seccode: "sc".to_string(),
        geetest_validate: "va".to_string(),
    };
    let input = captcha_request_input(&solved, "+15555550100");
    assert_eq!(input.challenge_code, "ch");
    assert_eq!(input.sec_code, "sc");
    assert_eq!(input.validation_code, "va");
    assert_eq!(input.phone, "+15555550100");
    assert_eq!(phone_code_notice(true, "+1"), "Phone Code sent successfully to +1");
    assert_eq!(phone_code_notice(false, "+1"), "Phone Code couldn't be send.");
}

#[test]
fn command_line_globals() {
    assert_eq!(cli_globals(Some(Some(4))).unwrap(), 4);
    assert_eq!(cli_globals::<u8>(Some(None)).unwrap_err(), GlobalsFailure::EmptyResponse);
    assert_eq!(cli_globals::<u8>(None).unwrap_err(), GlobalsFailure::BadResponse);
    assert_eq!(GlobalsFailure::BadResponse.message(), "bad response from server");
    assert_eq!(GlobalsFailure::EmptyResponse.message(), "empty response");
}

#[test]
fn usd_payment_outcomes() {
    assert!(usd_payment_result(&vec![]).is_ok());
    let e = usd_payment_result(&strings(&["INSUFFICIENT_BALANCE"])).unwrap_err();
    assert_eq!(e, CliError::PaymentError(PaymentError::PaymentError));
    assert_eq!(e.message(), "Payment failed");
}
