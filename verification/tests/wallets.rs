use galoy_cli::balance::{currencies_supported, find_wallet_id, select_wallet_balances, BalanceError};
use galoy_cli::decimal::Amount;
use galoy_cli::types::{
    QueryMeMeDefaultAccount, QueryMeMeDefaultAccountWallets, Wallet, WalletCurrency,
};
use galoy_cli::utils::{wallet_debug_name, wallet_to_currency};

fn amount(mantissa: i128, scale: u32) -> Amount {
    Amount::new(mantissa, scale).unwrap()
}

fn account() -> QueryMeMeDefaultAccount {
    QueryMeMeDefaultAccount {
        default_wallet_id: "w-usd".to_string(),
        wallets: vec![
            QueryMeMeDefaultAccountWallets {
                id: "w-btc".to_string(),
                wallet_currency: WalletCurrency::BTC,
                balance: amount(1500, 0),
            },
            QueryMeMeDefaultAccountWallets {
                id: "w-usd".to_string(),
                wallet_currency: WalletCurrency::USD,
                balance: amount(1234, 2),
            },
        ],
    }
}

#[test]
fn wallet_currency_round_trip() {
    for w in [Wallet::Btc, Wallet::Usd] {
        let c = wallet_to_currency(&w);
        assert_eq!(Wallet::from_currency(&c), w);
    }
    assert_eq!(wallet_to_currency(&Wallet::Usd), WalletCurrency::USD);
    assert_eq!(wallet_to_currency(&Wallet::Btc), WalletCurrency::BTC);
    assert_eq!(Wallet::from_currency(&WalletCurrency::USD), Wallet::Usd);
}

#[test]
fn wallet_names_as_reported() {
    assert_eq!(wallet_debug_name(&Wallet::Btc), "Btc");
    assert_eq!(wallet_debug_name(&Wallet::Usd), "Usd");
}

#[test]
fn balances_without_filter_list_every_wallet() {
    let lines = select_wallet_balances(&account(), false, false, &vec![]).unwrap();
    assert_eq!(lines.len(), 2);
    assert_eq!(lines[0].currency, "Btc");
    assert_eq!(lines[0].id.as_deref(), Some("w-btc"));
    assert!(!lines[0].default);
    assert_eq!(lines[1].currency, "Usd");
    assert_eq!(lines[1].balance, amount(1234, 2));
    assert!(lines[1].default);
}

#[test]
fn balances_with_both_switches_list_every_wallet() {
    let lines = select_wallet_balances(&account(), true, true, &vec![]).unwrap();
    assert_eq!(lines.len(), 2);
}

#[test]
fn balances_of_one_kind() {
    let lines = select_wallet_balances(&account(), true, false, &vec![]).unwrap();
    assert_eq!(lines.len(), 1);
    assert_eq!(lines[0].id.as_deref(), Some("w-btc"));
    let lines = select_wallet_balances(&account(), false, true, &vec![]).unwrap();
    assert_eq!(lines.len(), 1);
    assert_eq!(lines[0].id.as_deref(), Some("w-usd"));
}

#[test]
fn balances_by_id_and_kind() {
    let lines =
        select_wallet_balances(&account(), false, true, &vec!["w-btc".to_string()]).unwrap();
    assert_eq!(lines.len(), 2);
    let lines =
        select_wallet_balances(&account(), false, false, &vec!["w-btc".to_string()]).unwrap();
    assert_eq!(lines.len(), 1);
    assert_eq!(lines[0].currency, "Btc");
}

#[test]
fn balances_with_no_match_fail() {
    let r = select_wallet_balances(&account(), false, false, &vec!["nope".to_string()]);
    assert_eq!(r.unwrap_err(), BalanceError::NoMatchingWallet);
    assert_eq!(BalanceError::NoMatchingWallet.message(), "No matching wallet found");
    let empty = QueryMeMeDefaultAccount { default_wallet_id: "x".to_string(), wallets: vec![] };
    assert!(select_wallet_balances(&empty, false, false, &vec![]).is_err());
}

#[test]
fn first_wallet_of_currency() {
    let acc = account();
    assert_eq!(find_wallet_id(&acc.wallets, WalletCurrency::USD).as_deref(), Some("w-usd"));
    assert_eq!(find_wallet_id(&acc.wallets, WalletCurrency::BTC).as_deref(), Some("w-btc"));
    assert_eq!(find_wallet_id(&vec![], WalletCurrency::BTC), None);
}

fn account_with_other() -> QueryMeMeDefaultAccount {
    let mut acc = account();
    acc.wallets.insert(
        0,
        QueryMeMeDefaultAccountWallets {
            id: "w-eur".to_string(),
            wallet_currency: WalletCurrency::Other,
            balance: amount(7, 0),
        },
    );
    acc
}

#[test]
fn unsupported_currency_is_skipped_when_not_needed() {
    let acc = account_with_other();
    let ids = vec!["w-btc".to_string()];
    assert!(currencies_supported(&acc, false, false, &ids));
    let lines = select_wallet_balances(&acc, false, false, &ids).unwrap();
    assert_eq!(lines.len(), 1);
    assert_eq!(lines[0].id.as_deref(), Some("w-btc"));
    assert_eq!(find_wallet_id(&acc.wallets, WalletCurrency::USD).as_deref(), Some("w-usd"));
}

#[test]
fn unsupported_currency_needed_is_refused() {
    let acc = account_with_other();
    assert!(!currencies_supported(&acc, false, false, &vec![]));
    assert!(!currencies_supported(&acc, true, false, &vec!["w-btc".to_string()]));
    assert!(!currencies_supported(&acc, false, false, &vec!["w-eur".to_string()]));
    assert!(currencies_supported(&account(), true, false, &vec![]));
}
