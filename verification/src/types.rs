use vstd::prelude::*;

verus! {

/// The two kinds of wallet a Galoy account holds.
#[derive(Debug, Clone, Copy, PartialEq, Eq, Structural)]
pub enum Wallet {
    Btc,
    Usd,
}

/// The unit an amount is given in on the command line.
#[derive(Debug, Clone, Copy, PartialEq, Eq, Structural)]
pub enum AmountCurrency {
    SATS,
    USD,
}

/// The ways of receiving a payment that the client offers.
#[derive(Debug, Clone, Copy, PartialEq, Eq, Structural)]
pub enum ReceiveVia {
    Onchain,
}

/// The currency of a wallet as the backend reports it.
#[derive(Debug, Clone, Copy, PartialEq, Eq, Structural)]
pub enum WalletCurrency {
    BTC,
    USD,
    /// Any currency the client does not support.
    Other,
}

} // verus!

use crate::decimal::Amount;

verus! {

/// A wallet as the `me` query reports it.
#[derive(Debug, Clone)]
pub struct QueryMeMeDefaultAccountWallets {
    pub id: String,
    pub wallet_currency: WalletCurrency,
    pub balance: Amount,
}

/// The default account as the `me` query reports it.
#[derive(Debug, Clone)]
pub struct QueryMeMeDefaultAccount {
    pub default_wallet_id: String,
    pub wallets: Vec<QueryMeMeDefaultAccountWallets>,
}

/// The answer to the `me` query.
#[derive(Debug, Clone)]
pub struct QueryMeMe {
    pub default_account: QueryMeMeDefaultAccount,
}

/// One line of a balance report.
#[derive(Debug, Clone)]
pub struct WalletBalance {
    /// The wallet kind, written `Btc` or `Usd`.
    pub currency: String,
    pub balance: Amount,
    pub id: Option<String>,
    /// Whether this is the account's default wallet.
    pub default: bool,
}

/// A wallet of the `me` query, as plain values.
pub struct MeWalletView {
    pub id: Seq<char>,
    pub currency: WalletCurrency,
    pub balance: Amount,
}

/// A balance report line, as plain values.
pub struct WalletBalanceView {
    pub currency: Seq<char>,
    pub balance: Amount,
    pub id: Option<Seq<char>>,
    pub default: bool,
}

impl View for QueryMeMeDefaultAccountWallets {
    type V = MeWalletView;

    open spec fn view(&self) -> MeWalletView {
        MeWalletView { id: self.id@, currency: self.wallet_currency, balance: self.balance }
    }
}

impl View for WalletBalance {
    type V = WalletBalanceView;

    open spec fn view(&self) -> WalletBalanceView {
        WalletBalanceView {
            currency: self.currency@,
            balance: self.balance,
            id: match self.id {
                Some(s) => Some(s@),
                None => None,
            },
            default: self.default,
        }
    }
}

} // verus!
