//! Which wallets a balance query reports, and how.
use vstd::prelude::*;

use crate::types::{
    QueryMeMeDefaultAccount, QueryMeMeDefaultAccountWallets, MeWalletView, Wallet,
    WalletBalance, WalletBalanceView, WalletCurrency,
};
use crate::utils::{spec_wallet_of, spec_wallet_debug_name, wallet_debug_name};

verus! {

/// A balance query found no wallet to report.
#[derive(Debug, Clone, Copy, PartialEq, Eq, Structural)]
pub enum BalanceError {
    NoMatchingWallet,
}

impl BalanceError {
    pub open spec fn spec_message(self) -> Seq<char> {
        "No matching wallet found"@
    }

    /// The message shown for this error.
    pub fn message(&self) -> (r: String)
        ensures
            r@ == self.spec_message(),
    {
        "No matching wallet found".to_owned()
    }
}

/// The wallet kind asked for by the `btc` and `usd` switches: none when both
/// or neither is given.
pub open spec fn spec_wallet_filter(btc: bool, usd: bool) -> Option<Wallet> {
    if btc && !usd {
        Some(Wallet::Btc)
    } else if !btc && usd {
        Some(Wallet::Usd)
    } else {
        None
    }
}

/// A wallet is reported when its id was asked for, or when it is of the kind
/// asked for; with no kind asked for, every wallet is reported when no id was
/// asked for.
pub open spec fn spec_is_reported(
    wallet: MeWalletView,
    ids: Seq<Seq<char>>,
    filter: Option<Wallet>,
) -> bool {
    ||| ids.contains(wallet.id)
    ||| match filter {
        Some(kind) => spec_wallet_of(wallet.currency) == Some(kind),
        None => ids.len() == 0,
    }
}

/// The balance query needs the wallet kind of every wallet it reports, and of
/// every wallet whose id was not asked for when a kind was asked for; those
/// wallets must hold a supported currency.  So a wallet of another currency
/// may only be one whose id was not asked for, with no kind asked for and
/// some id asked for.
pub open spec fn spec_currencies_supported(
    wallets: Seq<MeWalletView>,
    ids: Seq<Seq<char>>,
    filter: Option<Wallet>,
) -> bool {
    forall|k: int|
        0 <= k < wallets.len() && (#[trigger] wallets[k]).currency == WalletCurrency::Other ==> {
            &&& !ids.contains(wallets[k].id)
            &&& filter is None
            &&& ids.len() > 0
        }
}

/// The report line of a wallet.
pub open spec fn spec_balance_line(wallet: MeWalletView, default_id: Seq<char>) -> WalletBalanceView {
    WalletBalanceView {
        currency: match spec_wallet_of(wallet.currency) {
            Some(kind) => spec_wallet_debug_name(kind),
            None => Seq::empty(),
        },
        balance: wallet.balance,
        id: Some(wallet.id),
        default: wallet.id == default_id,
    }
}

/// The report lines of the reported wallets, in the order of the wallets.
pub open spec fn spec_report(
    wallets: Seq<MeWalletView>,
    ids: Seq<Seq<char>>,
    filter: Option<Wallet>,
    default_id: Seq<char>,
) -> Seq<WalletBalanceView>
    decreases wallets.len(),
{
    if wallets.len() == 0 {
        Seq::empty()
    } else {
        let rest = spec_report(wallets.drop_last(), ids, filter, default_id);
        if spec_is_reported(wallets.last(), ids, filter) {
            rest.push(spec_balance_line(wallets.last(), default_id))
        } else {
            rest
        }
    }
}

pub open spec fn view_wallets(wallets: Seq<QueryMeMeDefaultAccountWallets>) -> Seq<MeWalletView> {
    wallets.map_values(|w: QueryMeMeDefaultAccountWallets| w@)
}

pub open spec fn view_strings(strings: Seq<String>) -> Seq<Seq<char>> {
    strings.map_values(|s: String| s@)
}

pub open spec fn view_balances(lines: Seq<WalletBalance>) -> Seq<WalletBalanceView> {
    lines.map_values(|b: WalletBalance| b@)
}

pub(crate) fn contains_string(strings: &Vec<String>, s: &String) -> (r: bool)
    ensures
        r == view_strings(strings@).contains(s@),
{
    let mut i: usize = 0;
    while i < strings.len()
        invariant
            i <= strings.len(),
            forall|j: int| 0 <= j < i ==> strings@[j]@ != s@,
        decreases strings.len() - i,
    {
        if strings[i] == *s {
            assert(view_strings(strings@)[i as int] == s@);
            return true;
        }
        i = i + 1;
    }
    proof {
        if view_strings(strings@).contains(s@) {
            let k = choose|k: int| 0 <= k < view_strings(strings@).len() && view_strings(strings@)[k] == s@;
            assert(strings@[k]@ == s@);
        }
    }
    false
}

/// Whether [`select_wallet_balances`] can read every wallet kind it needs
/// (see [`spec_currencies_supported`]).
pub fn currencies_supported(
    account: &QueryMeMeDefaultAccount,
    btc: bool,
    usd: bool,
    wallet_ids: &Vec<String>,
) -> (r: bool)
    ensures
        r == spec_currencies_supported(
            view_wallets(account.wallets@),
            view_strings(wallet_ids@),
            spec_wallet_filter(btc, usd),
        ),
{
    let ghost ws = view_wallets(account.wallets@);
    let ghost ids = view_strings(wallet_ids@);
    let filtered = (btc && !usd) || (!btc && usd);
    let mut i: usize = 0;
    while i < account.wallets.len()
        invariant
            i <= account.wallets.len(),
            ws == view_wallets(account.wallets@),
            ids == view_strings(wallet_ids@),
            filtered == spec_wallet_filter(btc, usd) is Some,
            forall|k: int|
                0 <= k < i && (#[trigger] ws[k]).currency == WalletCurrency::Other ==> {
                    &&& !ids.contains(ws[k].id)
                    &&& spec_wallet_filter(btc, usd) is None
                    &&& ids.len() > 0
                },
        decreases account.wallets.len() - i,
    {
        let wallet = &account.wallets[i];
        assert(ws[i as int] == wallet@);
        if wallet.wallet_currency == WalletCurrency::Other {
            if filtered || wallet_ids.len() == 0 || contains_string(wallet_ids, &wallet.id) {
                return false;
            }
        }
        i = i + 1;
    }
    true
}

/// The balance report of an account: a line for each wallet that is asked for
/// (see [`spec_is_reported`]), in the order of the account's wallets, or an
/// error when no wallet is reported.  The wallets whose kind is needed hold a
/// supported currency (reading the kind of another one panics).
pub fn select_wallet_balances(
    account: &QueryMeMeDefaultAccount,
    btc: bool,
    usd: bool,
    wallet_ids: &Vec<String>,
) -> (r: Result<Vec<WalletBalance>, BalanceError>)
    requires
        spec_currencies_supported(
            view_wallets(account.wallets@),
            view_strings(wallet_ids@),
            spec_wallet_filter(btc, usd),
        ),
    ensures
        ({
            let report = spec_report(
                view_wallets(account.wallets@),
                view_strings(wallet_ids@),
                spec_wallet_filter(btc, usd),
                account.default_wallet_id@,
            );
            match r {
                Ok(lines) => report.len() > 0 && view_balances(lines@) == report,
                Err(e) => report.len() == 0 && e == BalanceError::NoMatchingWallet,
            }
        }),
{
    let wallet_type: Option<Wallet> = if btc && !usd {
        Some(Wallet::Btc)
    } else if !btc && usd {
        Some(Wallet::Usd)
    } else {
        None
    };
    let ghost ids = view_strings(wallet_ids@);
    let ghost default_id = account.default_wallet_id@;
    let ghost ws = view_wallets(account.wallets@);
    let no_ids = wallet_ids.len() == 0;
    let mut lines: Vec<WalletBalance> = Vec::new();
    let mut i: usize = 0;
    while i < account.wallets.len()
        invariant
            i <= account.wallets.len(),
            wallet_type == spec_wallet_filter(btc, usd),
            no_ids == (ids.len() == 0),
            ids == view_strings(wallet_ids@),
            ws == view_wallets(account.wallets@),
            default_id == account.default_wallet_id@,
            spec_currencies_supported(ws, ids, wallet_type),
            view_balances(lines@) == spec_report(ws.take(i as int), ids, wallet_type, default_id),
        decreases account.wallets.len() - i,
    {
        let wallet = &account.wallets[i];
        assert(ws.take(i + 1).drop_last() == ws.take(i as int));
        assert(ws.take(i + 1).last() == wallet@);
        let asked_by_id = contains_string(wallet_ids, &wallet.id);
        let reported = if asked_by_id {
            true
        } else {
            match wallet_type {
                Some(k) => k == Wallet::from_currency(&wallet.wallet_currency),
                None => no_ids,
            }
        };
        if reported {
            let kind = Wallet::from_currency(&wallet.wallet_currency);
            let line = WalletBalance {
                currency: wallet_debug_name(&kind),
                balance: wallet.balance,
                id: Some(wallet.id.clone()),
                default: wallet.id == account.default_wallet_id,
            };
            lines.push(line);
            assert(view_balances(lines@) == view_balances(lines@.drop_last()).push(line@));
        } else {
            assert(view_balances(lines@) == spec_report(ws.take(i + 1), ids, wallet_type, default_id));
        }
        i = i + 1;
    }
    assert(ws.take(account.wallets.len() as int) == ws);
    if lines.len() == 0 {
        Err(BalanceError::NoMatchingWallet)
    } else {
        Ok(lines)
    }
}

/// The id of the first wallet of the given currency, if there is one.
pub fn find_wallet_id(
    wallets: &Vec<QueryMeMeDefaultAccountWallets>,
    currency: WalletCurrency,
) -> (r: Option<String>)
    ensures
        match r {
            Some(id) => exists|k: int|
                0 <= k < wallets@.len() && wallets@[k].wallet_currency == currency
                    && wallets@[k].id@ == id@ && forall|j: int|
                    0 <= j < k ==> wallets@[j].wallet_currency != currency,
            None => forall|j: int| 0 <= j < wallets@.len() ==> wallets@[j].wallet_currency != currency,
        },
{
    let mut i: usize = 0;
    while i < wallets.len()
        invariant
            i <= wallets.len(),
            forall|j: int| 0 <= j < i ==> wallets@[j].wallet_currency != currency,
        decreases wallets.len() - i,
    {
        if wallets[i].wallet_currency == currency {
            return Some(wallets[i].id.clone());
        }
        i = i + 1;
    }
    None
}


/// Asking for both wallet kinds reports the same wallets as asking for neither.
pub proof fn lemma_both_kinds_like_no_kind(
    wallets: Seq<MeWalletView>,
    ids: Seq<Seq<char>>,
    default_id: Seq<char>,
)
    ensures
        spec_report(wallets, ids, spec_wallet_filter(true, true), default_id) == spec_report(
            wallets,
            ids,
            spec_wallet_filter(false, false),
            default_id,
        ),
{
}

/// With no wallet kind and no id asked for, every wallet is reported, in order.
pub proof fn lemma_no_filter_reports_every_wallet(wallets: Seq<MeWalletView>, default_id: Seq<char>)
    ensures
        spec_report(wallets, Seq::empty(), None, default_id) == wallets.map_values(
            |w: MeWalletView| spec_balance_line(w, default_id),
        ),
    decreases wallets.len(),
{
    if wallets.len() > 0 {
        lemma_no_filter_reports_every_wallet(wallets.drop_last(), default_id);
        assert(wallets.map_values(|w: MeWalletView| spec_balance_line(w, default_id)).drop_last()
            == wallets.drop_last().map_values(|w: MeWalletView| spec_balance_line(w, default_id)));
    } else {
        assert(wallets.map_values(|w: MeWalletView| spec_balance_line(w, default_id)) == Seq::<WalletBalanceView>::empty());
    }
}

/// Every reported line is the line of a wallet that was asked for, and every
/// wallet that was asked for has its line in the report.
pub proof fn lemma_report_is_exactly_the_asked_wallets(
    wallets: Seq<MeWalletView>,
    ids: Seq<Seq<char>>,
    filter: Option<Wallet>,
    default_id: Seq<char>,
)
    ensures
        forall|i: int|
            0 <= i < spec_report(wallets, ids, filter, default_id).len() ==> exists|k: int|
                0 <= k < wallets.len() && spec_is_reported(#[trigger] wallets[k], ids, filter)
                    && #[trigger] spec_report(wallets, ids, filter, default_id)[i] == spec_balance_line(
                    wallets[k],
                    default_id,
                ),
        forall|k: int|
            0 <= k < wallets.len() && spec_is_reported(#[trigger] wallets[k], ids, filter)
                ==> spec_report(wallets, ids, filter, default_id).contains(
                spec_balance_line(wallets[k], default_id),
            ),
    decreases wallets.len(),
{
    if wallets.len() > 0 {
        let prev = wallets.drop_last();
        lemma_report_is_exactly_the_asked_wallets(prev, ids, filter, default_id);
        let rest = spec_report(prev, ids, filter, default_id);
        let report = spec_report(wallets, ids, filter, default_id);
        assert forall|i: int| 0 <= i < report.len() implies exists|k: int|
            0 <= k < wallets.len() && spec_is_reported(#[trigger] wallets[k], ids, filter)
                && #[trigger] report[i] == spec_balance_line(wallets[k], default_id) by {
            if i < rest.len() {
                let k = choose|k: int|
                    0 <= k < prev.len() && spec_is_reported(#[trigger] prev[k], ids, filter)
                        && rest[i] == spec_balance_line(prev[k], default_id);
                assert(wallets[k] == prev[k]);
            } else {
                assert(wallets[wallets.len() - 1] == wallets.last());
            }
        }
        assert forall|k: int|
            0 <= k < wallets.len() && spec_is_reported(#[trigger] wallets[k], ids, filter)
                implies report.contains(spec_balance_line(wallets[k], default_id)) by {
            if k < prev.len() {
                assert(prev[k] == wallets[k]);
                assert(spec_is_reported(prev[k], ids, filter));
                let j = choose|j: int| 0 <= j < rest.len() && rest[j] == spec_balance_line(prev[k], default_id);
                assert(report[j] == rest[j]);
            } else {
                assert(report[report.len() - 1] == spec_balance_line(wallets[k], default_id));
            }
        }
    }
}

/// A report line is marked as the default wallet exactly when its id is the
/// account's default wallet id.
pub proof fn lemma_default_mark(
    wallets: Seq<MeWalletView>,
    ids: Seq<Seq<char>>,
    filter: Option<Wallet>,
    default_id: Seq<char>,
)
    ensures
        forall|i: int|
            0 <= i < spec_report(wallets, ids, filter, default_id).len() ==> {
                let line = #[trigger] spec_report(wallets, ids, filter, default_id)[i];
                line.default <==> line.id == Some(default_id)
            },
{
    lemma_report_is_exactly_the_asked_wallets(wallets, ids, filter, default_id);
}


/// A wallet is asked for by a balance query: by its id, or by its kind, or
/// (with no kind and no id given) as any wallet.
pub open spec fn asked_for(wallet: MeWalletView, ids: Seq<Seq<char>>, filter: Option<Wallet>) -> bool {
    ids.contains(wallet.id) || match filter {
        Some(kind) => spec_wallet_of(wallet.currency) == Some(kind),
        None => ids.len() == 0,
    }
}

/// The report line describes the wallet: its id, balance, kind name and
/// default mark.
pub open spec fn describes(line: WalletBalanceView, wallet: MeWalletView, default_id: Seq<char>) -> bool {
    &&& line.id == Some(wallet.id)
    &&& line.balance == wallet.balance
    &&& line.default == (wallet.id == default_id)
    &&& (spec_wallet_of(wallet.currency) matches Some(kind) ==> line.currency == spec_wallet_debug_name(kind))
}

/// The line describes some wallet of the account that was asked for.
pub open spec fn describes_asked_wallet(
    line: WalletBalanceView,
    wallets: Seq<MeWalletView>,
    ids: Seq<Seq<char>>,
    filter: Option<Wallet>,
    default_id: Seq<char>,
) -> bool {
    exists|k: int|
        0 <= k < wallets.len() && asked_for(wallets[k], ids, filter) && describes(
            line,
            #[trigger] wallets[k],
            default_id,
        )
}

/// A report has no more lines than the account has wallets, and each line
/// describes a wallet that was asked for.
pub proof fn lemma_lines_describe_asked_wallets(
    wallets: Seq<MeWalletView>,
    ids: Seq<Seq<char>>,
    filter: Option<Wallet>,
    default_id: Seq<char>,
)
    ensures
        spec_report(wallets, ids, filter, default_id).len() <= wallets.len(),
        forall|i: int|
            0 <= i < spec_report(wallets, ids, filter, default_id).len() ==> describes_asked_wallet(
                #[trigger] spec_report(wallets, ids, filter, default_id)[i],
                wallets,
                ids,
                filter,
                default_id,
            ),
    decreases wallets.len(),
{
    if wallets.len() > 0 {
        let prev = wallets.drop_last();
        lemma_lines_describe_asked_wallets(prev, ids, filter, default_id);
        let rest = spec_report(prev, ids, filter, default_id);
        let report = spec_report(wallets, ids, filter, default_id);
        assert forall|i: int| 0 <= i < report.len() implies describes_asked_wallet(
            #[trigger] report[i],
            wallets,
            ids,
            filter,
            default_id,
        ) by {
            if i < rest.len() {
                assert(report[i] == rest[i]);
                assert(describes_asked_wallet(rest[i], prev, ids, filter, default_id));
                let k = choose|k: int|
                    0 <= k < prev.len() && asked_for(prev[k], ids, filter) && describes(
                        rest[i],
                        #[trigger] prev[k],
                        default_id,
                    );
                assert(wallets[k] == prev[k]);
            } else {
                let k = wallets.len() - 1;
                assert(wallets[k] == wallets.last());
                assert(spec_is_reported(wallets.last(), ids, filter));
                assert(report == rest.push(spec_balance_line(wallets.last(), default_id)));
                assert(report[i] == spec_balance_line(wallets.last(), default_id));
                assert(asked_for(wallets[k], ids, filter));
                assert(describes(report[i], wallets[k], default_id));
            }
        }
    }
}

/// Every wallet that was asked for has a line with its id.
pub proof fn lemma_asked_wallets_have_lines(
    wallets: Seq<MeWalletView>,
    ids: Seq<Seq<char>>,
    filter: Option<Wallet>,
    default_id: Seq<char>,
)
    ensures
        forall|k: int|
            0 <= k < wallets.len() && asked_for(#[trigger] wallets[k], ids, filter) ==> exists|i: int|
                0 <= i < spec_report(wallets, ids, filter, default_id).len()
                    && (#[trigger] spec_report(wallets, ids, filter, default_id)[i]).id == Some(wallets[k].id),
    decreases wallets.len(),
{
    if wallets.len() > 0 {
        let prev = wallets.drop_last();
        lemma_asked_wallets_have_lines(prev, ids, filter, default_id);
        let rest = spec_report(prev, ids, filter, default_id);
        let report = spec_report(wallets, ids, filter, default_id);
        assert forall|k: int|
            0 <= k < wallets.len() && asked_for(#[trigger] wallets[k], ids, filter) implies exists|i: int|
                0 <= i < report.len() && (#[trigger] report[i]).id == Some(wallets[k].id) by {
            if k < prev.len() {
                assert(prev[k] == wallets[k]);
                assert(asked_for(prev[k], ids, filter));
                let i = choose|i: int| 0 <= i < rest.len() && (#[trigger] rest[i]).id == Some(prev[k].id);
                assert(report[i] == rest[i]);
            } else {
                assert(wallets[k] == wallets.last());
                assert(report[report.len() - 1].id == Some(wallets[k].id));
            }
        }
    }
}

/// When the account's wallet ids are distinct, no two report lines have the
/// same id: each wallet gives at most one line.
pub proof fn lemma_no_wallet_reported_twice(
    wallets: Seq<MeWalletView>,
    ids: Seq<Seq<char>>,
    filter: Option<Wallet>,
    default_id: Seq<char>,
)
    requires
        forall|k1: int, k2: int|
            0 <= k1 < k2 < wallets.len() ==> (#[trigger] wallets[k1]).id != (#[trigger] wallets[k2]).id,
    ensures
        forall|i: int, j: int|
            0 <= i < j < spec_report(wallets, ids, filter, default_id).len() ==> (
            #[trigger] spec_report(wallets, ids, filter, default_id)[i]).id != (
            #[trigger] spec_report(wallets, ids, filter, default_id)[j]).id,
    decreases wallets.len(),
{
    if wallets.len() > 0 {
        let prev = wallets.drop_last();
        let last = wallets.last();
        assert forall|k1: int, k2: int|
            0 <= k1 < k2 < prev.len() implies (#[trigger] prev[k1]).id != (#[trigger] prev[k2]).id by {
            assert(prev[k1] == wallets[k1]);
            assert(prev[k2] == wallets[k2]);
        }
        lemma_no_wallet_reported_twice(prev, ids, filter, default_id);
        lemma_lines_describe_asked_wallets(prev, ids, filter, default_id);
        let rest = spec_report(prev, ids, filter, default_id);
        let report = spec_report(wallets, ids, filter, default_id);
        assert forall|i: int, j: int| 0 <= i < j < report.len() implies (#[trigger] report[i]).id != (
        #[trigger] report[j]).id by {
            assert(report[i] == rest[i]);
            if j < rest.len() {
                assert(report[j] == rest[j]);
            } else {
                assert(describes_asked_wallet(rest[i], prev, ids, filter, default_id));
                let k = choose|k: int|
                    0 <= k < prev.len() && asked_for(prev[k], ids, filter) && describes(
                        rest[i],
                        #[trigger] prev[k],
                        default_id,
                    );
                assert(wallets[k] == prev[k]);
                assert(wallets[wallets.len() - 1] == last);
                assert(wallets[k].id != wallets[wallets.len() - 1].id);
                assert(report[j].id == Some(last.id));
            }
        }
    }
}

} // verus!
