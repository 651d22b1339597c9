//! Replies of the captcha queries.
use vstd::prelude::*;

use crate::errors::{ApiError, CaptchaError, ClientError};

verus! {

/// A captcha challenge as the `captchaCreateChallenge` mutation reports it.
#[derive(Debug, Clone)]
pub struct CaptchaCreateChallengeResult {
    pub id: String,
    pub challenge_code: String,
    pub new_captcha: bool,
    pub failback_mode: bool,
}

/// The `captchaCreateChallenge` field of the reply.
#[derive(Debug, Clone)]
pub struct CaptchaCreateChallengeCaptchaCreateChallenge {
    pub result: Option<CaptchaCreateChallengeResult>,
}

/// The payload of the reply to the `captchaCreateChallenge` mutation.
#[derive(Debug, Clone)]
pub struct ResponseData {
    pub captcha_create_challenge: CaptchaCreateChallengeCaptchaCreateChallenge,
}

/// A captcha challenge to show to the user.
#[derive(Debug, Clone)]
pub struct CaptchaChallenge {
    pub id: String,
    pub challenge_code: String,
    pub new_captcha: bool,
    pub failback_mode: bool,
}

/// The challenge a reply carries, or `EmptyCaptcha` when it carries none.
pub open spec fn spec_challenge_of(response: ResponseData) -> Result<CaptchaChallenge, CaptchaError> {
    match response.captcha_create_challenge.result {
        Some(c) => Ok(
            CaptchaChallenge {
                id: c.id,
                challenge_code: c.challenge_code,
                new_captcha: c.new_captcha,
                failback_mode: c.failback_mode,
            },
        ),
        None => Err(CaptchaError::EmptyCaptcha),
    }
}

impl TryFrom<ResponseData> for CaptchaChallenge {
    type Error = CaptchaError;

    fn try_from(response: ResponseData) -> (r: Result<Self, Self::Error>) {
        let result = response.captcha_create_challenge.result;
        match result {
            Some(challenge) => Ok(
                CaptchaChallenge {
                    id: challenge.id,
                    challenge_code: challenge.challenge_code,
                    new_captcha: challenge.new_captcha,
                    failback_mode: challenge.failback_mode,
                },
            ),
            None => Err(CaptchaError::EmptyCaptcha),
        }
    }
}

impl vstd::std_specs::convert::TryFromSpecImpl<ResponseData> for CaptchaChallenge {
    open spec fn obeys_try_from_spec() -> bool {
        true
    }

    open spec fn try_from_spec(response: ResponseData) -> Result<Self, Self::Error> {
        spec_challenge_of(response)
    }
}

/// The challenge of a reply to the `captchaCreateChallenge` mutation: no
/// payload is `IssueParsingResponse`; a payload without a challenge is
/// `IssueGettingResponse` with the captcha error's message.
pub fn captcha_challenge_from(data: Option<ResponseData>) -> (r: Result<CaptchaChallenge, ClientError>)
    ensures
        match data {
            None => r == Err::<CaptchaChallenge, ClientError>(
                ClientError::ApiError(ApiError::IssueParsingResponse),
            ),
            Some(d) => match spec_challenge_of(d) {
                Ok(c) => r == Ok::<CaptchaChallenge, ClientError>(c),
                Err(e) => r matches Err(ClientError::ApiError(ApiError::IssueGettingResponse(m)))
                    && m@ == e.spec_message(),
            },
        },
{
    match data {
        None => Err(ClientError::ApiError(ApiError::IssueParsingResponse)),
        Some(d) => match CaptchaChallenge::try_from(d) {
            Ok(c) => Ok(c),
            Err(e) => Err(ClientError::ApiError(ApiError::IssueGettingResponse(e.message()))),
        },
    }
}


/// What the captcha widget sends back once the user has solved it.
#[derive(Debug, Clone)]
pub struct GeetestResponse {
    pub geetest_challenge: String,
    pub geetest_seccode: String,
    pub geetest_validate: String,
}

/// The input of the `captchaRequestAuthCode` mutation.
#[derive(Debug, Clone)]
pub struct CaptchaRequestAuthCodeInput {
    pub challenge_code: String,
    pub phone: String,
    pub sec_code: String,
    pub validation_code: String,
}

/// The request for a phone code that a solved captcha allows.
pub fn captcha_request_input(solved: &GeetestResponse, phone: &str) -> (r: CaptchaRequestAuthCodeInput)
    ensures
        r.challenge_code@ == solved.geetest_challenge@,
        r.phone@ == phone@,
        r.sec_code@ == solved.geetest_seccode@,
        r.validation_code@ == solved.geetest_validate@,
{
    CaptchaRequestAuthCodeInput {
        challenge_code: solved.geetest_challenge.clone(),
        phone: phone.to_owned(),
        sec_code: solved.geetest_seccode.clone(),
        validation_code: solved.geetest_validate.clone(),
    }
}

/// The line shown once the phone-code request of a solved captcha is answered.
pub open spec fn spec_phone_code_notice(sent: bool, phone: Seq<char>) -> Seq<char> {
    if sent {
        "Phone Code sent successfully to "@ + phone
    } else {
        "Phone Code couldn't be send."@
    }
}

/// The line shown once the phone-code request of a solved captcha is answered.
pub fn phone_code_notice(sent: bool, phone: &str) -> (r: String)
    ensures
        r@ == spec_phone_code_notice(sent, phone@),
{
    if sent {
        let mut s = "Phone Code sent successfully to ".to_owned();
        s.append(phone);
        s
    } else {
        "Phone Code couldn't be send.".to_owned()
    }
}


/// The challenge read from a reply keeps each field of the reply's result in
/// place; a reply without a result gives `EmptyCaptcha`.
pub proof fn lemma_challenge_keeps_fields(response: ResponseData)
    ensures
        match response.captcha_create_challenge.result {
            Some(c) => spec_challenge_of(response) matches Ok(r) && r.id == c.id
                && r.challenge_code == c.challenge_code && r.new_captcha == c.new_captcha
                && r.failback_mode == c.failback_mode,
            None => spec_challenge_of(response) == Err::<CaptchaChallenge, CaptchaError>(
                CaptchaError::EmptyCaptcha,
            ),
        },
{
}

} // verus!
