use galoy_cli::cli::{authorization_header, check_api_url, pay_amount, CommandError};
use galoy_cli::decimal::Amount;
use galoy_cli::types::Wallet;

#[test]
fn payment_amount_follows_the_wallet() {
    let cents = Amount::new(250, 0);
    let sats = Amount::new(1000, 0);
    assert_eq!(pay_amount(Wallet::Usd, cents, sats).unwrap(), cents.unwrap());
    assert_eq!(pay_amount(Wallet::Btc, cents, sats).unwrap(), sats.unwrap());
    let e = pay_amount(Wallet::Btc, cents, None).unwrap_err();
    assert_eq!(e, CommandError::MissingAmount);
    assert_eq!(e.message(), "Appropriate amount (sats/cents) not provided");
    assert_eq!(pay_amount(Wallet::Usd, None, sats).unwrap_err(), CommandError::MissingAmount);
}

#[test]
fn api_address_must_be_a_url() {
    assert!(check_api_url("http://localhost:4002/graphql").is_ok());
    assert!(check_api_url("https://api.mainnet.galoy.io/graphql").is_ok());
    let e = check_api_url("localhost graphql").unwrap_err();
    assert_eq!(e, CommandError::InvalidApi("localhost graphql".to_string()));
    assert_eq!(e.message(), "API: localhost graphql is not valid");
    assert!(check_api_url("").is_err());
}

#[test]
fn token_header() {
    assert_eq!(authorization_header("ory_st_abc").unwrap(), "Bearer ory_st_abc");
    assert_eq!(authorization_header("").unwrap(), "Bearer ");
    assert_eq!(authorization_header("with\ttab").unwrap(), "Bearer with\ttab");
    assert!(authorization_header("tökén").is_ok());
    assert_eq!(authorization_header("bad\ntoken").unwrap_err(), CommandError::InvalidHeaderValue);
    assert!(authorization_header("del\u{7f}").is_err());
    assert_eq!(CommandError::InvalidHeaderValue.message(), "failed to parse header value");
}
