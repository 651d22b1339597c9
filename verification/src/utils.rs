use vstd::prelude::*;

use crate::types::{Wallet, WalletCurrency};

verus! {

/// The backend currency that a wallet kind holds.
pub open spec fn spec_currency_of(wallet: Wallet) -> WalletCurrency {
    match wallet {
        Wallet::Usd => WalletCurrency::USD,
        Wallet::Btc => WalletCurrency::BTC,
    }
}

/// The wallet kind that holds a backend currency; none for an unsupported one.
pub open spec fn spec_wallet_of(currency: WalletCurrency) -> Option<Wallet> {
    match currency {
        WalletCurrency::USD => Some(Wallet::Usd),
        WalletCurrency::BTC => Some(Wallet::Btc),
        WalletCurrency::Other => None,
    }
}

/// Maps a wallet kind to the currency the backend uses for it.
pub fn wallet_to_currency(wallet: &Wallet) -> (currency: WalletCurrency)
    ensures
        currency == spec_currency_of(*wallet),
{
    match wallet {
        Wallet::Usd => WalletCurrency::USD,
        Wallet::Btc => WalletCurrency::BTC,
    }
}

impl Wallet {
    /// The wallet kind that holds a supported currency (there is none for
    /// another currency).
    pub fn from_currency(currency: &WalletCurrency) -> (wallet: Wallet)
        requires
            *currency != WalletCurrency::Other,
        ensures
            spec_wallet_of(*currency) == Some(wallet),
    {
        match currency {
            WalletCurrency::USD => Wallet::Usd,
            WalletCurrency::BTC => Wallet::Btc,
            WalletCurrency::Other => {
                proof {
                    assert(false);
                }
                Wallet::Btc
            },
        }
    }
}

/// Converting a wallet kind to its currency and back gives the same wallet kind.
pub proof fn lemma_wallet_currency_round_trip(wallet: Wallet)
    ensures
        spec_wallet_of(spec_currency_of(wallet)) == Some(wallet),
{
}

/// Converting a supported currency to its wallet kind and back gives the same
/// currency.
pub proof fn lemma_currency_wallet_round_trip(currency: WalletCurrency)
    requires
        currency != WalletCurrency::Other,
    ensures
        spec_wallet_of(currency) matches Some(w) && spec_currency_of(w) == currency,
{
}

} // verus!

verus! {

/// How a wallet kind is written in a balance report.
pub open spec fn spec_wallet_debug_name(wallet: Wallet) -> Seq<char> {
    match wallet {
        Wallet::Btc => "Btc"@,
        Wallet::Usd => "Usd"@,
    }
}

/// The name of a wallet kind, as a balance report writes it.
pub fn wallet_debug_name(wallet: &Wallet) -> (r: String)
    ensures
        r@ == spec_wallet_debug_name(*wallet),
{
    match wallet {
        Wallet::Btc => "Btc".to_owned(),
        Wallet::Usd => "Usd".to_owned(),
    }
}

} // verus!
