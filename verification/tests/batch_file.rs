use galoy_cli::batch::{
    batch_payment_for_record, check_file_exists, check_self_payment, check_sufficient_balance,
    payment_total,
    read_csv, total_balance, try_check_sufficient_balance, validate_csv_headers,
    validate_csv_record, BatchFileError,
};
use galoy_cli::decimal::Amount;
use galoy_cli::errors::BatchError;
use galoy_cli::types::{Wallet, WalletBalance};

fn strings(items: &[&str]) -> Vec<String> {
    items.iter().map(|s| s.to_string()).collect()
}

fn amount(mantissa: i128, scale: u32) -> Amount {
    Amount::new(mantissa, scale).unwrap()
}

fn balance(mantissa: i128, scale: u32) -> WalletBalance {
    WalletBalance {
        currency: "Usd".to_string(),
        balance: amount(mantissa, scale),
        id: Some("w".to_string()),
        default: true,
    }
}

#[test]
fn missing_file_is_reported() {
    assert!(check_file_exists("payments.csv", true).is_ok());
    let e = check_file_exists("payments.csv", false).unwrap_err();
    assert_eq!(e, BatchFileError::FileNotFound("payments.csv".to_string()));
    assert_eq!(e.message(), "File not found: payments.csv");
}

#[test]
fn csv_is_read_with_its_header() {
    let table = read_csv(b"username,cents,memo\nuserA,100,hello\nuserB,2.5,\n").unwrap();
    assert_eq!(table.headers, strings(&["username", "cents", "memo"]));
    let records = table.records.unwrap();
    assert_eq!(records.len(), 2);
    assert_eq!(records[0], strings(&["userA", "100", "hello"]));
    assert_eq!(records[1], strings(&["userB", "2.5", ""]));
    let table = read_csv(b"").unwrap();
    assert!(table.headers.is_empty());
    assert!(table.records.unwrap().is_empty());
}

#[test]
fn csv_with_uneven_records_is_refused() {
    let table = read_csv(b"username,sats\nuserA,1,extra\n").unwrap();
    assert_eq!(table.headers, strings(&["username", "sats"]));
    assert!(matches!(table.records, Err(BatchFileError::Csv(_))));
    // The header line is read, and so checked, before the records.
    let table = read_csv(b"user,sats\nuserA,1,extra\n").unwrap();
    assert_eq!(validate_csv_headers(&table.headers).unwrap_err(), BatchFileError::CsvFormat);
}

#[test]
fn headers_choose_the_wallet() {
    assert_eq!(validate_csv_headers(&strings(&["username", "cents"])).unwrap(), Wallet::Usd);
    assert_eq!(validate_csv_headers(&strings(&["username", "sats"])).unwrap(), Wallet::Btc);
    assert_eq!(
        validate_csv_headers(&strings(&["username", "sats", "memo"])).unwrap(),
        Wallet::Btc
    );
    assert_eq!(
        validate_csv_headers(&strings(&["username", "sats", "note", "x"])).unwrap(),
        Wallet::Btc
    );
}

#[test]
fn bad_headers_are_refused() {
    for h in [
        strings(&["user", "cents"]),
        strings(&["user"]),
        strings(&["username"]),
        vec![],
        strings(&["username", "usd"]),
        strings(&["username", "cents", "note"]),
    ] {
        let e = validate_csv_headers(&h).unwrap_err();
        assert_eq!(e, BatchFileError::CsvFormat);
        assert_eq!(
            e.message(),
            "CSV format not correct, requires: username, (cents or sats), memo(optional)"
        );
    }
}

#[test]
fn records_are_checked() {
    assert_eq!(validate_csv_record(&strings(&["userA", "10"])).unwrap(), "userA");
    assert_eq!(validate_csv_record(&strings(&["userA", "-0.5", "m"])).unwrap(), "userA");
    assert_eq!(validate_csv_record(&vec![]).unwrap_err(), BatchFileError::UsernameMissing);
    assert_eq!(validate_csv_record(&strings(&["userA"])).unwrap_err(), BatchFileError::AmountMissing);
    let e = validate_csv_record(&strings(&["userA", "ten"])).unwrap_err();
    assert_eq!(e, BatchFileError::AmountNotNumber);
    assert_eq!(e.message(), "Amount must be a number");
}

#[test]
fn records_become_payments() {
    let p = batch_payment_for_record(&strings(&["userB", "5", "memo for second batch tx"]), Wallet::Usd)
        .unwrap();
    assert_eq!(p.username, "userB");
    assert_eq!(p.amount, amount(5, 0));
    assert_eq!(p.memo.as_deref(), Some("memo for second batch tx"));
    assert_eq!(p.wallet, Wallet::Usd);
    let p = batch_payment_for_record(&strings(&["userB", "2.50"]), Wallet::Btc).unwrap();
    assert_eq!(p.amount, amount(250, 2));
    assert_eq!(p.memo, None);
    assert_eq!(
        batch_payment_for_record(&vec![], Wallet::Btc).unwrap_err(),
        BatchFileError::UsernameMissing
    );
    assert!(matches!(
        batch_payment_for_record(&strings(&["userB"]), Wallet::Btc).unwrap_err(),
        BatchFileError::Decimal(_)
    ));
}

#[test]
fn amounts_compare_and_add() {
    assert!(amount(251, 2).is_greater_than(&amount(25, 1)));
    assert!(!amount(25, 1).is_greater_than(&amount(250, 2)));
    assert!(amount(-1, 0).is_greater_than(&amount(-2, 0)) );
    assert_eq!(Amount::new(1, 29), None);
    assert_eq!(Amount::zero(), amount(0, 0));
    let total = total_balance(&vec![balance(1000, 2), balance(5, 0)]).unwrap();
    assert!(!total.is_greater_than(&amount(15, 0)));
    assert!(!amount(15, 0).is_greater_than(&total));
    assert_eq!(total_balance(&vec![]).unwrap(), Amount::zero());
    let max = amount(79228162514264337593543950335, 0);
    assert_eq!(total_balance(&vec![balance(79228162514264337593543950335, 0), balance(1, 0)]), None);
    assert_eq!(total_balance(&vec![WalletBalance { balance: max, ..balance(0, 0) }]).unwrap(), max);
}

#[test]
fn payment_totals() {
    let recs = vec![strings(&["a", "2"]), strings(&["b", "5.5"])];
    let t = payment_total(&recs).unwrap().unwrap();
    assert!(!t.is_greater_than(&amount(75, 1)));
    assert!(!amount(75, 1).is_greater_than(&t));
    assert!(payment_total(&vec![strings(&["a", "x"])]).is_err());
    assert!(payment_total(&vec![strings(&["a"])]).is_err());
}

#[test]
fn balance_must_cover_the_batch() {
    let balances = vec![balance(1000, 2)];
    let recs = vec![strings(&["userB", "2"]), strings(&["userB", "5"])];
    assert!(check_sufficient_balance(&recs, &balances).is_ok());
    let exact = vec![strings(&["userB", "10.00"])];
    assert!(check_sufficient_balance(&exact, &balances).is_ok());
    let big = vec![strings(&["userB", "1000000000"])];
    let e = check_sufficient_balance(&big, &balances).unwrap_err();
    assert_eq!(e, BatchFileError::InsufficientBalance);
    assert_eq!(e.message(), "Insufficient balance in the wallet");
    let bad = vec![strings(&["userB", "1"]), strings(&["userB", "one"])];
    assert!(matches!(check_sufficient_balance(&bad, &balances), Err(BatchFileError::Decimal(_))));
    assert!(check_sufficient_balance(&vec![], &vec![]).is_ok());
}

#[test]
fn overflowing_sums_are_not_checked() {
    let huge = vec![balance(79228162514264337593543950335, 0), balance(1, 0)];
    assert_eq!(try_check_sufficient_balance(&vec![], &huge), None);
    let recs = vec![
        strings(&["a", "79228162514264337593543950335"]),
        strings(&["b", "79228162514264337593543950335"]),
    ];
    assert_eq!(try_check_sufficient_balance(&recs, &vec![balance(1, 0)]), None);
    assert_eq!(
        try_check_sufficient_balance(&vec![strings(&["a", "3"])], &vec![balance(1, 0)]),
        Some(Err(BatchFileError::InsufficientBalance))
    );
    assert_eq!(
        try_check_sufficient_balance(&vec![strings(&["a", "1"])], &vec![balance(1, 0)]),
        Some(Ok(()))
    );
}

#[test]
fn batch_cant_pay_self() {
    // userA pays 10 to userA, whose default wallet is one of the paying account's.
    let recs = vec![strings(&["userA", "10"])];
    assert_eq!(validate_csv_record(&recs[0]).unwrap(), "userA");
    assert!(check_sufficient_balance(&recs, &vec![balance(10000, 0)]).is_ok());
    let own = strings(&["userA-btc", "userA-usd"]);
    let e = check_self_payment(&strings(&["userA-usd"]), &own).unwrap_err();
    assert_eq!(e, BatchError::SelfPayment);
    assert_eq!(e.message(), "BatchError::SelfPayment\n");
}

#[test]
fn batch_balance_too_low() {
    let recs = vec![strings(&["userB", "1000000000"])];
    assert_eq!(
        check_sufficient_balance(&recs, &vec![balance(10000, 0)]).unwrap_err(),
        BatchFileError::InsufficientBalance
    );
    assert!(check_self_payment(&strings(&["userB-usd"]), &strings(&["userA-btc", "userA-usd"])).is_ok());
}

#[test]
fn self_payment_check_covers_every_recipient() {
    let own = strings(&["mine"]);
    assert!(check_self_payment(&vec![], &own).is_ok());
    assert!(check_self_payment(&strings(&["a", "b"]), &own).is_ok());
    assert!(check_self_payment(&strings(&["a", "mine", "b"]), &own).is_err());
    assert!(check_self_payment(&strings(&["a"]), &vec![]).is_ok());
}
