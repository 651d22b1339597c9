//! Batch payments read from a CSV file.
//!
//! A batch file has a header line `username,cents` or `username,sats`,
//! optionally followed by a `memo` column, and one payment per line.  The
//! functions here check the file, check that the wallet can pay the whole
//! batch, and turn each line into a payment; looking up the recipients and
//! sending the payments is network work, done by the caller line by line.
use vstd::prelude::*;

use crate::balance::{contains_string, view_strings};
use crate::errors::BatchError;
use crate::decimal::{
    add_decimals, decimal_from_str, parse_decimal, spec_add_amounts, spec_parse_amount, Amount,
};
use crate::types::{Wallet, WalletBalance};

verus! {

/// Failures while reading, checking or paying a batch file.
#[derive(Debug, Clone, PartialEq, Eq)]
pub enum BatchFileError {
    /// The named file does not exist.
    FileNotFound(String),
    /// The header line is not one of the accepted ones.
    CsvFormat,
    UsernameMissing,
    AmountMissing,
    AmountNotNumber,
    InsufficientBalance,
    /// The CSV reader failed; holds its message.
    Csv(String),
    /// An amount could not be read as a decimal number; holds the message.
    Decimal(String),
}

impl BatchFileError {
    pub open spec fn spec_message(self) -> Seq<char> {
        match self {
            BatchFileError::FileNotFound(file) => "File not found: "@ + file@,
            BatchFileError::CsvFormat => "CSV format not correct, requires: username, (cents or sats), memo(optional)"@,
            BatchFileError::UsernameMissing => "Username is missing"@,
            BatchFileError::AmountMissing => "Amount is missing"@,
            BatchFileError::AmountNotNumber => "Amount must be a number"@,
            BatchFileError::InsufficientBalance => "Insufficient balance in the wallet"@,
            BatchFileError::Csv(m) => m@,
            BatchFileError::Decimal(m) => m@,
        }
    }

    /// The message shown for this error.
    pub fn message(&self) -> (r: String)
        ensures
            r@ == self.spec_message(),
    {
        match self {
            BatchFileError::FileNotFound(file) => {
                let mut s = "File not found: ".to_owned();
                s.append(file.as_str());
                s
            },
            BatchFileError::CsvFormat => "CSV format not correct, requires: username, (cents or sats), memo(optional)".to_owned(),
            BatchFileError::UsernameMissing => "Username is missing".to_owned(),
            BatchFileError::AmountMissing => "Amount is missing".to_owned(),
            BatchFileError::AmountNotNumber => "Amount must be a number".to_owned(),
            BatchFileError::InsufficientBalance => "Insufficient balance in the wallet".to_owned(),
            BatchFileError::Csv(m) => m.clone(),
            BatchFileError::Decimal(m) => m.clone(),
        }
    }
}

/// Checks that the batch file exists; `file_exists` is what the file system
/// says of the path `file`.
pub fn check_file_exists(file: &str, file_exists: bool) -> (r: Result<(), BatchFileError>)
    ensures
        file_exists ==> r is Ok,
        !file_exists ==> (r matches Err(BatchFileError::FileNotFound(f)) && f@ == file@),
{
    if !file_exists {
        return Err(BatchFileError::FileNotFound(file.to_owned()));
    }
    Ok(())
}

/// The header line and the records of a CSV file, as text fields.  The
/// records are read after the header line, and reading them may fail on its
/// own.
#[derive(Debug)]
pub struct CsvTable {
    pub headers: Vec<String>,
    pub records: Result<Vec<Vec<String>>, BatchFileError>,
}

pub open spec fn view_records(records: Seq<Vec<String>>) -> Seq<Seq<Seq<char>>> {
    records.map_values(|r: Vec<String>| view_strings(r@))
}

/// What the `csv` crate reads from the bytes of a comma-separated file with a
/// header line: the header fields, or the text of the error met reading them;
/// with them, the fields of each record, or the text of the error met reading
/// the records.
pub uninterp spec fn csv_table(data: Seq<u8>) -> Result<
    (Seq<Seq<char>>, Result<Seq<Seq<Seq<char>>>, Seq<char>>),
    Seq<char>,
>;

/// Reads `data` with a `csv::Reader` (comma delimiter, header line): first its
/// `headers`, then all its `records`, giving each record as its fields.
/// Claims that the result is the named `csv_table` of the bytes.
#[verifier::external_body]
fn csv_read(data: &[u8]) -> (r: Result<(Vec<String>, Result<Vec<Vec<String>>, String>), String>)
    ensures
        match csv_table(data@) {
            Ok((h, recs)) => r matches Ok((hh, rr)) && view_strings(hh@) == h && match recs {
                Ok(rs) => rr matches Ok(x) && view_records(x@) == rs,
                Err(m) => rr matches Err(e) && e@ == m,
            },
            Err(m) => r matches Err(e) && e@ == m,
        },
{
    let mut reader = csv::ReaderBuilder::new().delimiter(b',').from_reader(data);
    let fields = |r: &csv::StringRecord| r.iter().map(|f| f.to_string()).collect::<Vec<String>>();
    let headers = fields(reader.headers().map_err(|e| e.to_string())?);
    let records = reader.records().map(|r| r.map(|r| fields(&r))).collect::<Result<Vec<_>, _>>();
    Ok((headers, records.map_err(|e| e.to_string())))
}

/// Reads a batch file's bytes as CSV with a header line.
pub fn read_csv(data: &[u8]) -> (r: Result<CsvTable, BatchFileError>)
    ensures
        match csv_table(data@) {
            Ok((h, recs)) => r matches Ok(t) && view_strings(t.headers@) == h && match recs {
                Ok(rs) => t.records matches Ok(x) && view_records(x@) == rs,
                Err(m) => t.records matches Err(BatchFileError::Csv(e)) && e@ == m,
            },
            Err(m) => r matches Err(BatchFileError::Csv(e)) && e@ == m,
        },
{
    match csv_read(data) {
        Ok((headers, Ok(records))) => Ok(CsvTable { headers, records: Ok(records) }),
        Ok((headers, Err(m))) => Ok(CsvTable { headers, records: Err(BatchFileError::Csv(m)) }),
        Err(m) => Err(BatchFileError::Csv(m)),
    }
}

/// The header line names the recipient, then the amount in cents or sats,
/// then (when there is a third column) the memo.
pub open spec fn spec_headers_ok(h: Seq<Seq<char>>) -> bool {
    &&& h.len() >= 2
    &&& h[0] == "username"@
    &&& (h[1] == "cents"@ || h[1] == "sats"@)
    &&& (h.len() == 3 ==> h[2] == "memo"@)
}

/// The wallet a batch is paid from: the USD wallet for amounts in cents,
/// else the BTC wallet.
pub open spec fn spec_batch_wallet(h: Seq<Seq<char>>) -> Wallet {
    if h[1] == "cents"@ {
        Wallet::Usd
    } else {
        Wallet::Btc
    }
}

/// Checks the header line of a batch file and gives the wallet the batch is
/// paid from; a header line with fewer than two fields is refused too.
pub fn validate_csv_headers(headers: &Vec<String>) -> (r: Result<Wallet, BatchFileError>)
    ensures
        ({
            let h = view_strings(headers@);
            match r {
                Ok(w) => spec_headers_ok(h) && w == spec_batch_wallet(h),
                Err(e) => !spec_headers_ok(h) && e == BatchFileError::CsvFormat,
            }
        }),
        r matches Ok(w) ==> (headers@[1]@ == "cents"@ ==> w == Wallet::Usd),
        r matches Ok(w) ==> (headers@[1]@ == "sats"@ ==> w == Wallet::Btc),
{
    proof {
        reveal_strlit("cents");
        reveal_strlit("sats");
        assert("sats"@ != "cents"@) by {
            assert("sats"@[0] != "cents"@[0]);
        }
    }
    let ghost h = view_strings(headers@);
    let username = "username".to_owned();
    let cents = "cents".to_owned();
    let sats = "sats".to_owned();
    let memo = "memo".to_owned();
    if headers.len() < 2 {
        return Err(BatchFileError::CsvFormat);
    }
    assert(h[0] == headers@[0]@);
    if headers[0] != username {
        return Err(BatchFileError::CsvFormat);
    }
    assert(h[1] == headers@[1]@);
    if (headers[1] != cents && headers[1] != sats) || (headers.len() == 3 && headers[2] != memo) {
        return Err(BatchFileError::CsvFormat);
    }
    if headers.len() == 3 {
        assert(h[2] == headers@[2]@);
    }
    if headers[1] == cents {
        Ok(Wallet::Usd)
    } else {
        Ok(Wallet::Btc)
    }
}

/// What checking one record of a batch file finds.
pub enum RecordCheck {
    UsernameMissing,
    AmountMissing,
    AmountNotNumber,
    /// The record names a recipient and an amount that reads as a number.
    Valid,
}

pub open spec fn spec_check_record(record: Seq<Seq<char>>) -> RecordCheck {
    if record.len() < 1 {
        RecordCheck::UsernameMissing
    } else if record.len() < 2 {
        RecordCheck::AmountMissing
    } else if decimal_from_str(record[1]) is Err {
        RecordCheck::AmountNotNumber
    } else {
        RecordCheck::Valid
    }
}

/// Checks one record of a batch file and gives the recipient's username, which
/// the caller then looks up.
pub fn validate_csv_record(record: &Vec<String>) -> (r: Result<String, BatchFileError>)
    ensures
        match spec_check_record(view_strings(record@)) {
            RecordCheck::UsernameMissing => r == Err::<String, BatchFileError>(BatchFileError::UsernameMissing),
            RecordCheck::AmountMissing => r == Err::<String, BatchFileError>(BatchFileError::AmountMissing),
            RecordCheck::AmountNotNumber => r == Err::<String, BatchFileError>(BatchFileError::AmountNotNumber),
            RecordCheck::Valid => r matches Ok(u) && u@ == record@[0]@,
        },
{
    if record.len() < 1 {
        return Err(BatchFileError::UsernameMissing);
    }
    if record.len() < 2 {
        return Err(BatchFileError::AmountMissing);
    }
    assert(view_strings(record@)[1] == record@[1]@);
    match parse_decimal(record[1].as_str()) {
        Ok(_) => Ok(record[0].clone()),
        Err(_) => Err(BatchFileError::AmountNotNumber),
    }
}


/// The sum of the balances, added in order from zero; `None` where an
/// addition overflows.
pub open spec fn spec_balance_total(balances: Seq<WalletBalance>) -> Option<Amount>
    decreases balances.len(),
{
    if balances.len() == 0 {
        Some(Amount { mantissa: 0, scale: 0 })
    } else {
        match spec_balance_total(balances.drop_last()) {
            Some(t) => spec_add_amounts(t, balances.last().balance),
            None => None,
        }
    }
}

/// The amount field of a record, or the empty text when it has none.
pub open spec fn spec_amount_text(record: Seq<Seq<char>>) -> Seq<char> {
    if record.len() > 1 {
        record[1]
    } else {
        Seq::empty()
    }
}

/// The sum of the records' amounts, read and added in order from zero:
/// `Err` with the message of the first amount that does not read, else
/// `Ok(None)` where an addition overflows, else `Ok(Some(total))`.
pub open spec fn spec_payment_total(records: Seq<Seq<Seq<char>>>) -> Result<Option<Amount>, Seq<char>>
    decreases records.len(),
{
    if records.len() == 0 {
        Ok(Some(Amount { mantissa: 0, scale: 0 }))
    } else {
        match spec_payment_total(records.drop_last()) {
            Ok(Some(t)) => match spec_parse_amount(spec_amount_text(records.last())) {
                Ok(a) => Ok(spec_add_amounts(t, a)),
                Err(m) => Err(m),
            },
            other => other,
        }
    }
}

pub open spec fn balances_wf(balances: Seq<WalletBalance>) -> bool {
    forall|i: int| 0 <= i < balances.len() ==> (#[trigger] balances[i]).balance.wf()
}

/// Adds up the balances in order from zero; `None` where an addition overflows.
pub fn total_balance(balances: &Vec<WalletBalance>) -> (r: Option<Amount>)
    requires
        balances_wf(balances@),
    ensures
        r == spec_balance_total(balances@),
        r matches Some(t) ==> t.wf(),
{
    let mut total = Amount::zero();
    let mut i: usize = 0;
    while i < balances.len()
        invariant
            i <= balances.len(),
            balances_wf(balances@),
            total.wf(),
            spec_balance_total(balances@.take(i as int)) == Some(total),
        decreases balances.len() - i,
    {
        assert(balances@.take(i + 1).drop_last() == balances@.take(i as int));
        assert(balances@[i as int].balance.wf());
        match add_decimals(&total, &balances[i].balance) {
            Some(t) => {
                total = t;
            },
            None => {
                proof {
                    lemma_balance_total_stays_none(balances@, i as int + 1);
                }
                return None;
            },
        }
        i = i + 1;
    }
    assert(balances@.take(balances.len() as int) == balances@);
    Some(total)
}

proof fn lemma_balance_total_stays_none(balances: Seq<WalletBalance>, k: int)
    requires
        0 <= k <= balances.len(),
        spec_balance_total(balances.take(k)) is None,
    ensures
        spec_balance_total(balances) is None,
    decreases balances.len() - k,
{
    if k < balances.len() {
        assert(balances.take(k + 1).drop_last() == balances.take(k));
        lemma_balance_total_stays_none(balances, k + 1);
    } else {
        assert(balances.take(k) == balances);
    }
}

proof fn lemma_payment_total_stays(records: Seq<Seq<Seq<char>>>, k: int)
    requires
        0 <= k <= records.len(),
        !(spec_payment_total(records.take(k)) matches Ok(Some(_))),
    ensures
        spec_payment_total(records) == spec_payment_total(records.take(k)),
    decreases records.len() - k,
{
    if k < records.len() {
        assert(records.take(k + 1).drop_last() == records.take(k));
        lemma_payment_total_stays(records, k + 1);
    } else {
        assert(records.take(k) == records);
    }
}

/// Reads and adds up the records' amounts (see [`spec_payment_total`]).
pub fn payment_total(records: &Vec<Vec<String>>) -> (r: Result<Option<Amount>, String>)
    ensures
        match spec_payment_total(view_records(records@)) {
            Ok(t) => r == Ok::<Option<Amount>, String>(t),
            Err(m) => r matches Err(e) && e@ == m,
        },
        r matches Ok(Some(t)) ==> t.wf(),
{
    let ghost recs = view_records(records@);
    let mut total = Amount::zero();
    let mut i: usize = 0;
    while i < records.len()
        invariant
            i <= records.len(),
            recs == view_records(records@),
            total.wf(),
            spec_payment_total(recs.take(i as int)) == Ok::<Option<Amount>, Seq<char>>(Some(total)),
        decreases records.len() - i,
    {
        assert(recs.take(i + 1).drop_last() == recs.take(i as int));
        assert(recs.take(i + 1).last() == view_strings(records@[i as int]@));
        let record = &records[i];
        let empty = String::new();
        let text: &String = if record.len() > 1 {
            assert(view_strings(record@)[1] == record@[1]@);
            &record[1]
        } else {
            &empty
        };
        match parse_decimal(text.as_str()) {
            Ok(a) => match add_decimals(&total, &a) {
                Some(t) => {
                    total = t;
                },
                None => {
                    proof {
                        lemma_payment_total_stays(recs, i as int + 1);
                    }
                    return Ok(None);
                },
            },
            Err(m) => {
                proof {
                    lemma_payment_total_stays(recs, i as int + 1);
                }
                return Err(m);
            },
        }
        i = i + 1;
    }
    assert(recs.take(records.len() as int) == recs);
    Ok(Some(total))
}

/// Checks that the wallet's balances cover the batch: an amount that does not
/// read as a number is an error, and so is a total greater than the sum of
/// the balances.  The sums must not overflow (adding decimals panics there).
pub fn check_sufficient_balance(records: &Vec<Vec<String>>, balances: &Vec<WalletBalance>) -> (r: Result<(), BatchFileError>)
    requires
        balances_wf(balances@),
        spec_balance_total(balances@) is Some,
        !(spec_payment_total(view_records(records@)) matches Ok(None)),
    ensures
        ({
            let available = spec_balance_total(balances@)->0;
            match spec_payment_total(view_records(records@)) {
                Ok(Some(total)) => if total.spec_gt(available) {
                    r == Err::<(), BatchFileError>(BatchFileError::InsufficientBalance)
                } else {
                    r is Ok
                },
                Ok(None) => false,
                Err(m) => r matches Err(BatchFileError::Decimal(e)) && e@ == m,
            }
        }),
{
    let available = match total_balance(balances) {
        Some(t) => t,
        None => {
            proof {
                assert(false);
            }
            return Ok(());
        },
    };
    match payment_total(records) {
        Ok(Some(total)) => {
            if total.is_greater_than(&available) {
                Err(BatchFileError::InsufficientBalance)
            } else {
                Ok(())
            }
        },
        Ok(None) => {
            proof {
                assert(false);
            }
            Ok(())
        },
        Err(m) => Err(BatchFileError::Decimal(m)),
    }
}

/// [`check_sufficient_balance`] where its sums do not overflow; `None` where
/// one would (there adding decimals panics).
pub fn try_check_sufficient_balance(records: &Vec<Vec<String>>, balances: &Vec<WalletBalance>) -> (r: Option<Result<(), BatchFileError>>)
    requires
        balances_wf(balances@),
    ensures
        r is None <==> (spec_balance_total(balances@) is None
            || spec_payment_total(view_records(records@)) matches Ok(None)),
        ({
            match (r, spec_balance_total(balances@), spec_payment_total(view_records(records@))) {
                (Some(res), Some(available), Ok(Some(total))) => if total.spec_gt(available) {
                    res == Err::<(), BatchFileError>(BatchFileError::InsufficientBalance)
                } else {
                    res is Ok
                },
                (Some(res), Some(_), Err(m)) => res matches Err(BatchFileError::Decimal(e)) && e@ == m,
                _ => true,
            }
        }),
{
    if total_balance(balances).is_none() {
        return None;
    }
    if let Ok(None) = payment_total(records) {
        return None;
    }
    Some(check_sufficient_balance(records, balances))
}

/// One payment of a batch.
#[derive(Debug, Clone)]
pub struct BatchPayment {
    pub username: String,
    pub amount: Amount,
    pub memo: Option<String>,
    /// The wallet the payment is sent from.
    pub wallet: Wallet,
}

/// The payment a record asks for, as plain values.
pub struct PaymentView {
    pub username: Seq<char>,
    pub amount: Amount,
    pub memo: Option<Seq<char>>,
}

/// The payment a record of a batch file asks for: its recipient, its amount
/// (read from the amount field, or from the empty text when there is none) and
/// its memo, if it has a third field.
pub open spec fn spec_record_payment(record: Seq<Seq<char>>) -> Result<PaymentView, Option<Seq<char>>> {
    if record.len() < 1 {
        Err(None)
    } else {
        match spec_parse_amount(spec_amount_text(record)) {
            Ok(a) => Ok(
                PaymentView {
                    username: record[0],
                    amount: a,
                    memo: if record.len() > 2 {
                        Some(record[2])
                    } else {
                        None
                    },
                },
            ),
            Err(m) => Err(Some(m)),
        }
    }
}

/// The payment a record of a batch file asks for, sent from `wallet`: no
/// username is `UsernameMissing`, an amount that does not read is the
/// decimal error.
pub fn batch_payment_for_record(record: &Vec<String>, wallet: Wallet) -> (r: Result<BatchPayment, BatchFileError>)
    ensures
        match spec_record_payment(view_strings(record@)) {
            Ok(p) => r matches Ok(bp) && bp.username@ == p.username && bp.amount == p.amount
                && bp.wallet == wallet && match (bp.memo, p.memo) {
                    (Some(x), Some(y)) => x@ == y,
                    (None, None) => true,
                    _ => false,
                },
            Err(None) => r == Err::<BatchPayment, BatchFileError>(BatchFileError::UsernameMissing),
            Err(Some(m)) => r matches Err(BatchFileError::Decimal(e)) && e@ == m,
        },
{
    let ghost rec = view_strings(record@);
    if record.len() < 1 {
        return Err(BatchFileError::UsernameMissing);
    }
    let username = record[0].clone();
    let empty = String::new();
    let text: &String = if record.len() > 1 {
        assert(rec[1] == record@[1]@);
        &record[1]
    } else {
        &empty
    };
    let amount = match parse_decimal(text.as_str()) {
        Ok(a) => a,
        Err(m) => {
            return Err(BatchFileError::Decimal(m));
        },
    };
    let memo = if record.len() > 2 {
        assert(rec[2] == record@[2]@);
        Some(record[2].clone())
    } else {
        None
    };
    Ok(BatchPayment { username, amount, memo, wallet })
}

/// A record that passes validation is paid as written: to the recipient it
/// names, for the amount its amount field reads as.
pub proof fn lemma_valid_record_is_paid(record: Seq<Seq<char>>)
    requires
        spec_check_record(record) is Valid,
    ensures
        spec_record_payment(record) matches Ok(p) && p.username == record[0]
            && spec_parse_amount(record[1]) == Ok::<Amount, Seq<char>>(p.amount),
{
}


/// A batch pays no wallet of the account it is paid from.
pub open spec fn spec_no_self_payment(recipients: Seq<Seq<char>>, own: Seq<Seq<char>>) -> bool {
    forall|i: int| 0 <= i < recipients.len() ==> !own.contains(#[trigger] recipients[i])
}

/// Refuses a batch that would pay the account it is paid from:
/// `recipient_wallet_ids` are the wallets the batch pays (the recipients'
/// default wallets), `own_wallet_ids` the wallets of the paying account.
pub fn check_self_payment(recipient_wallet_ids: &Vec<String>, own_wallet_ids: &Vec<String>) -> (r: Result<(), BatchError>)
    ensures
        r is Ok <==> spec_no_self_payment(view_strings(recipient_wallet_ids@), view_strings(own_wallet_ids@)),
        r is Err ==> r == Err::<(), BatchError>(BatchError::SelfPayment),
        r is Err <==> exists|i: int, j: int|
            0 <= i < recipient_wallet_ids@.len() && 0 <= j < own_wallet_ids@.len()
                && (#[trigger] recipient_wallet_ids@[i])@ == (#[trigger] own_wallet_ids@[j])@,
{
    let ghost recipients = view_strings(recipient_wallet_ids@);
    let ghost own = view_strings(own_wallet_ids@);
    let mut i: usize = 0;
    while i < recipient_wallet_ids.len()
        invariant
            i <= recipient_wallet_ids.len(),
            recipients == view_strings(recipient_wallet_ids@),
            own == view_strings(own_wallet_ids@),
            forall|j: int| 0 <= j < i ==> !own.contains(#[trigger] recipients[j]),
        decreases recipient_wallet_ids.len() - i,
    {
        assert(recipients[i as int] == recipient_wallet_ids@[i as int]@);
        if contains_string(own_wallet_ids, &recipient_wallet_ids[i]) {
            proof {
                lemma_self_payment_any_position(recipients, own);
                let (a, b) = choose|a: int, b: int|
                    0 <= a < recipients.len() && 0 <= b < own.len() && #[trigger] recipients[a] == #[trigger] own[b];
                assert(recipient_wallet_ids@[a]@ == own_wallet_ids@[b]@);
            }
            return Err(BatchError::SelfPayment);
        }
        i = i + 1;
    }
    proof {
        lemma_self_payment_any_position(recipients, own);
        assert forall|a: int, b: int|
            0 <= a < recipient_wallet_ids@.len() && 0 <= b < own_wallet_ids@.len() implies
                (#[trigger] recipient_wallet_ids@[a])@ != (#[trigger] own_wallet_ids@[b])@ by {
            assert(recipients[a] == recipient_wallet_ids@[a]@);
            assert(own[b] == own_wallet_ids@[b]@);
        }
    }
    Ok(())
}


/// For an accepted header line, the paying wallet depends only on the
/// amount column: cents are paid from the USD wallet and sats from the BTC
/// wallet, whatever the number of columns.
pub proof fn lemma_wallet_follows_amount_column(h: Seq<Seq<char>>)
    requires
        spec_headers_ok(h),
    ensures
        h[1] == "cents"@ ==> spec_batch_wallet(h) == Wallet::Usd,
        h[1] == "sats"@ ==> spec_batch_wallet(h) == Wallet::Btc,
{
    reveal_strlit("cents");
    reveal_strlit("sats");
    if h[1] == "sats"@ {
        assert(h[1][0] == 's');
        assert(h[1] != "cents"@) by {
            assert("cents"@[0] == 'c');
        }
    }
}

/// Cutting a record to its first two fields, when it has more.
pub open spec fn spec_two_fields(record: Seq<Seq<char>>) -> Seq<Seq<char>> {
    if record.len() > 2 {
        record.subrange(0, 2)
    } else {
        record
    }
}

/// The batch total reads each record's amount from its second field, whatever
/// the record's length: the memo and any later fields change nothing, so the
/// total of the records equals that of the records cut to two fields.
pub proof fn lemma_total_ignores_fields_after_amount(records: Seq<Seq<Seq<char>>>)
    ensures
        spec_payment_total(records) == spec_payment_total(
            records.map_values(|r: Seq<Seq<char>>| spec_two_fields(r)),
        ),
    decreases records.len(),
{
    let cut = records.map_values(|r: Seq<Seq<char>>| spec_two_fields(r));
    if records.len() > 0 {
        lemma_total_ignores_fields_after_amount(records.drop_last());
        assert(cut.drop_last() == records.drop_last().map_values(|r: Seq<Seq<char>>| spec_two_fields(r)));
        assert(cut.last() == spec_two_fields(records.last()));
        assert(spec_amount_text(cut.last()) == spec_amount_text(records.last()));
    }
}

/// A record with an amount field contributes the amount that field reads as.
pub proof fn lemma_total_adds_second_field(records: Seq<Seq<Seq<char>>>)
    requires
        records.len() > 0,
        records.last().len() >= 2,
        spec_payment_total(records.drop_last()) matches Ok(Some(_)),
    ensures
        spec_payment_total(records) == match (spec_payment_total(records.drop_last()), decimal_from_str(records.last()[1])) {
            (Ok(Some(t)), Ok(pair)) => Ok(spec_add_amounts(t, Amount::from_pair(pair))),
            (_, Err(m)) => Err(m),
            (other, _) => other,
        },
{
}

/// A batch is refused as paying itself exactly when some recipient wallet is
/// one of the paying account's wallets, wherever it stands in either list.
pub proof fn lemma_self_payment_any_position(recipients: Seq<Seq<char>>, own: Seq<Seq<char>>)
    ensures
        !spec_no_self_payment(recipients, own) <==> exists|i: int, j: int|
            0 <= i < recipients.len() && 0 <= j < own.len() && #[trigger] recipients[i] == #[trigger] own[j],
{
    if !spec_no_self_payment(recipients, own) {
        let i = choose|i: int| 0 <= i < recipients.len() && own.contains(#[trigger] recipients[i]);
        let j = choose|j: int| 0 <= j < own.len() && own[j] == recipients[i];
        assert(recipients[i] == own[j]);
    }
    if exists|i: int, j: int| 0 <= i < recipients.len() && 0 <= j < own.len() && #[trigger] recipients[i] == #[trigger] own[j] {
        let (i, j) = choose|i: int, j: int| 0 <= i < recipients.len() && 0 <= j < own.len() && #[trigger] recipients[i] == #[trigger] own[j];
        assert(own.contains(recipients[i]));
    }
}

} // verus!
