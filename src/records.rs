//! Account summaries and the trade ledger, decoded from comma-separated
//! records, and the trade booking that produces them.
use vstd::prelude::*;

use crate::decimal::{decimal_units, parse_decimal, percent, percent_of, MAX_AMOUNT};
use crate::text::chars_of;

verus! {

/// What a CSV reader with a header row yields for these bytes, record by
/// record after the header: the fields of each record, or `None` for a record
/// that it could not read.
pub uninterp spec fn csv_records(data: Seq<u8>) -> Seq<Option<Seq<Seq<char>>>>;

/// The records handed out by the reader, as sequences of characters.
pub open spec fn records_view(r: Seq<Option<Vec<String>>>) -> Seq<Option<Seq<Seq<char>>>> {
    r.map_values(
        |x: Option<Vec<String>>|
            match x {
                Some(f) => Some(f@.map_values(|s: String| s@)),
                None => None,
            },
    )
}

/// Relies on `csv::ReaderBuilder::new().from_reader` (a header row, comma
/// delimiter) and `Reader::records`: each data record in order, its fields as
/// text, or the reader's error for a record it could not read.
#[verifier::external_body]
pub(crate) fn read_records(data: &[u8]) -> (r: Vec<Option<Vec<String>>>)
    ensures
        records_view(r@) == csv_records(data@),
{
    let mut rdr = csv::ReaderBuilder::new().from_reader(data);
    rdr.records().map(|rec| rec.ok().map(|f| f.iter().map(String::from).collect())).collect()
}

/// An amount that the library can hold and add to another without overflow.
pub open spec fn in_range(v: int) -> bool {
    -MAX_AMOUNT < v < MAX_AMOUNT
}

/// One account: its starting and current balance, and the change between
/// them, absolute and as a percentage of the start (in millionths).
#[derive(Debug)]
pub struct AccountSummary {
    pub name: String,
    pub initial_amount: i64,
    pub current_amount: i64,
    pub change: i64,
    pub percentage_change: i128,
}

impl AccountSummary {
    /// Both derived fields follow from the two balances.
    pub open spec fn wf(&self) -> bool {
        &&& in_range(self.initial_amount as int)
        &&& in_range(self.current_amount as int)
        &&& self.change == self.current_amount - self.initial_amount
        &&& self.percentage_change as int == percent_of(self.change as int, self.initial_amount as int)
    }

    /// An account with the given balances and the change derived from them.
    pub fn new(name: String, initial_amount: i64, current_amount: i64) -> (r: Self)
        requires
            in_range(initial_amount as int),
            in_range(current_amount as int),
        ensures
            r.wf(),
            r.name == name,
            r.initial_amount == initial_amount,
            r.current_amount == current_amount,
    {
        let change = current_amount - initial_amount;
        AccountSummary {
            name,
            initial_amount,
            current_amount,
            change,
            percentage_change: percent(change, initial_amount),
        }
    }
}

/// One row of the live trade ledger.
#[derive(Debug)]
pub struct TradeRecord {
    pub name: String,
    pub transaction: i64,
    pub new_balance: i64,
}

/// A ledger entry written when a trade is booked: it also records the trade
/// as a percentage of the account's starting balance (in millionths).
#[derive(Debug)]
pub struct TradingRecord {
    pub name: String,
    pub transaction: i64,
    pub new_balance: i64,
    pub percentage_change: i128,
}

/// The index of the first record that could not be decoded.
#[derive(Clone, Copy, Debug, PartialEq, Eq, Structural)]
pub struct DecodeError {
    pub record: usize,
}

/// A record decodes as an account: name, then four decimal fields
/// (initial, current, change, percentage change).
pub open spec fn account_fields_ok(f: Seq<Seq<char>>) -> bool {
    &&& f.len() >= 5
    &&& decimal_units(f[1]) is Some
    &&& decimal_units(f[2]) is Some
    &&& decimal_units(f[3]) is Some
    &&& decimal_units(f[4]) is Some
}

pub open spec fn account_record_ok(r: Option<Seq<Seq<char>>>) -> bool {
    r is Some && account_fields_ok(r->0)
}

/// `a` holds what the fields `f` say: the name and the two balances; the
/// change and percentage are derived from the balances.
pub open spec fn account_from_fields(a: AccountSummary, f: Seq<Seq<char>>) -> bool {
    &&& a.wf()
    &&& a.name@ == f[0]
    &&& a.initial_amount as int == decimal_units(f[1])->0
    &&& a.current_amount as int == decimal_units(f[2])->0
}

/// An account decoded from a file carries the change and the percentage that
/// its two balances give, whatever the file stored for them.
pub proof fn lemma_decoded_account_consistent(a: AccountSummary, f: Seq<Seq<char>>)
    requires
        account_from_fields(a, f),
    ensures
        a.change as int == a.current_amount as int - a.initial_amount as int,
        a.percentage_change as int == percent_of(a.change as int, a.initial_amount as int),
{
}

/// A record decodes as a trade: name, then two decimal fields
/// (transaction, new balance).
pub open spec fn trade_fields_ok(f: Seq<Seq<char>>) -> bool {
    &&& f.len() >= 3
    &&& decimal_units(f[1]) is Some
    &&& decimal_units(f[2]) is Some
}

pub open spec fn trade_record_ok(r: Option<Seq<Seq<char>>>) -> bool {
    r is Some && trade_fields_ok(r->0)
}

pub open spec fn trade_from_fields(t: TradeRecord, f: Seq<Seq<char>>) -> bool {
    &&& t.name@ == f[0]
    &&& t.transaction as int == decimal_units(f[1])->0
    &&& t.new_balance as int == decimal_units(f[2])->0
}

/// Reads field `i` of a record as a decimal.
fn decimal_field(f: &Vec<String>, i: usize) -> (r: Option<i64>)
    requires
        i < f@.len(),
    ensures
        r is Some <==> decimal_units(f@[i as int]@) is Some,
        r is Some ==> r->0 as int == decimal_units(f@[i as int]@)->0,
        r is Some ==> in_range(r->0 as int),
{
    let c = chars_of(f[i].as_str());
    parse_decimal(&c)
}

/// Decodes the records of an account file: every record must carry the five fields. The
/// change and percentage are recomputed from the two balances.
pub fn accounts_from_records(rows: &Vec<Option<Vec<String>>>) -> (r: Result<Vec<AccountSummary>, DecodeError>)
    ensures
        r is Ok <==> forall|i: int|
            0 <= i < records_view(rows@).len() ==> account_record_ok(#[trigger] records_view(rows@)[i]),
        r is Ok ==> r->Ok_0@.len() == records_view(rows@).len(),
        r is Ok ==> forall|i: int|
            0 <= i < r->Ok_0@.len() ==> account_from_fields(
                #[trigger] r->Ok_0@[i],
                records_view(rows@)[i]->0,
            ),
        r is Err ==> r->Err_0.record < records_view(rows@).len() && !account_record_ok(
            records_view(rows@)[r->Err_0.record as int],
        ),
{
    let ghost rv = records_view(rows@);
    assert(rows@.len() == rv.len());
    let mut out: Vec<AccountSummary> = Vec::new();
    let mut i: usize = 0;
    while i < rows.len()
        invariant
            i <= rows@.len() == rv.len(),
            rv == records_view(rows@),
            out@.len() == i,
            forall|j: int| 0 <= j < i ==> account_record_ok(#[trigger] rv[j]),
            forall|j: int| 0 <= j < i ==> account_from_fields(#[trigger] out@[j], rv[j]->0),
        decreases rows@.len() - i,
    {
        assert(rv[i as int] == records_view(rows@)[i as int]);
        match &rows[i] {
            None => {
                assert(rows@[i as int] is None);
                assert(rv[i as int] is None);
                assert(!account_record_ok(records_view(rows@)[i as int]));
                    return Err(DecodeError { record: i });
            },
            Some(f) => {
                assert(rv[i as int]->0 == f@.map_values(|s: String| s@));
                if f.len() < 5 {
                    assert(!account_record_ok(records_view(rows@)[i as int]));
                    return Err(DecodeError { record: i });
                }
                assert(forall|k: int| 0 <= k < 5 ==> rv[i as int]->0[k] == (#[trigger] f@[k])@);
                let a = decimal_field(f, 1);
                let b = decimal_field(f, 2);
                let c = decimal_field(f, 3);
                let d = decimal_field(f, 4);
                if a.is_none() || b.is_none() || c.is_none() || d.is_none() {
                    assert(!account_record_ok(records_view(rows@)[i as int]));
                    return Err(DecodeError { record: i });
                }
                let acc = AccountSummary::new(f[0].clone(), a.unwrap(), b.unwrap());
                out.push(acc);
            },
        }
        i = i + 1;
    }
    Ok(out)
}

/// Reads an account file with the CSV reader and decodes its records (see
/// `accounts_from_records`).
pub fn accounts_from_csv(data: &[u8]) -> (r: Result<Vec<AccountSummary>, DecodeError>)
    ensures
        r is Ok <==> forall|i: int|
            0 <= i < csv_records(data@).len() ==> account_record_ok(#[trigger] csv_records(data@)[i]),
        r is Ok ==> r->Ok_0@.len() == csv_records(data@).len(),
        r is Ok ==> forall|i: int|
            0 <= i < r->Ok_0@.len() ==> account_from_fields(
                #[trigger] r->Ok_0@[i],
                csv_records(data@)[i]->0,
            ),
        r is Err ==> r->Err_0.record < csv_records(data@).len() && !account_record_ok(
            csv_records(data@)[r->Err_0.record as int],
        ),
{
    let rows = read_records(data);
    accounts_from_records(&rows)
}

/// Decodes the records of a trade ledger: every record must carry a name and two decimals.
pub fn trades_from_records(rows: &Vec<Option<Vec<String>>>) -> (r: Result<Vec<TradeRecord>, DecodeError>)
    ensures
        r is Ok <==> forall|i: int|
            0 <= i < records_view(rows@).len() ==> trade_record_ok(#[trigger] records_view(rows@)[i]),
        r is Ok ==> r->Ok_0@.len() == records_view(rows@).len(),
        r is Ok ==> forall|i: int|
            0 <= i < r->Ok_0@.len() ==> trade_from_fields(
                #[trigger] r->Ok_0@[i],
                records_view(rows@)[i]->0,
            ),
        r is Err ==> r->Err_0.record < records_view(rows@).len() && !trade_record_ok(
            records_view(rows@)[r->Err_0.record as int],
        ),
{
    let ghost rv = records_view(rows@);
    assert(rows@.len() == rv.len());
    let mut out: Vec<TradeRecord> = Vec::new();
    let mut i: usize = 0;
    while i < rows.len()
        invariant
            i <= rows@.len() == rv.len(),
            rv == records_view(rows@),
            out@.len() == i,
            forall|j: int| 0 <= j < i ==> trade_record_ok(#[trigger] rv[j]),
            forall|j: int| 0 <= j < i ==> trade_from_fields(#[trigger] out@[j], rv[j]->0),
        decreases rows@.len() - i,
    {
        assert(rv[i as int] == records_view(rows@)[i as int]);
        match &rows[i] {
            None => {
                assert(rows@[i as int] is None);
                assert(rv[i as int] is None);
                assert(!trade_record_ok(records_view(rows@)[i as int]));
                    return Err(DecodeError { record: i });
            },
            Some(f) => {
                assert(rv[i as int]->0 == f@.map_values(|s: String| s@));
                if f.len() < 3 {
                    assert(!trade_record_ok(records_view(rows@)[i as int]));
                    return Err(DecodeError { record: i });
                }
                assert(forall|k: int| 0 <= k < 3 ==> rv[i as int]->0[k] == (#[trigger] f@[k])@);
                let a = decimal_field(f, 1);
                let b = decimal_field(f, 2);
                if a.is_none() || b.is_none() {
                    assert(!trade_record_ok(records_view(rows@)[i as int]));
                    return Err(DecodeError { record: i });
                }
                out.push(TradeRecord { name: f[0].clone(), transaction: a.unwrap(), new_balance: b.unwrap() });
            },
        }
        i = i + 1;
    }
    Ok(out)
}

/// Reads a trade ledger with the CSV reader and decodes its records (see
/// `trades_from_records`).
pub fn trades_from_csv(data: &[u8]) -> (r: Result<Vec<TradeRecord>, DecodeError>)
    ensures
        r is Ok <==> forall|i: int|
            0 <= i < csv_records(data@).len() ==> trade_record_ok(#[trigger] csv_records(data@)[i]),
        r is Ok ==> r->Ok_0@.len() == csv_records(data@).len(),
        r is Ok ==> forall|i: int|
            0 <= i < r->Ok_0@.len() ==> trade_from_fields(
                #[trigger] r->Ok_0@[i],
                csv_records(data@)[i]->0,
            ),
        r is Err ==> r->Err_0.record < csv_records(data@).len() && !trade_record_ok(
            csv_records(data@)[r->Err_0.record as int],
        ),
{
    let rows = read_records(data);
    trades_from_records(&rows)
}

/// `i` is the first account named `name`.
pub open spec fn first_named(accounts: Seq<AccountSummary>, name: Seq<char>, i: int) -> bool {
    &&& 0 <= i < accounts.len()
    &&& accounts[i].name@ == name
    &&& forall|j: int| 0 <= j < i ==> (#[trigger] accounts[j]).name@ != name
}

/// Books a trade of `amount` on the first account named `name`: its current
/// balance moves by `amount`, change and percentage are recomputed, and a
/// ledger entry is appended. Returns `false`, changing nothing, when no
/// account has that name.
#[verifier::loop_isolation(false)]
pub fn process_trade(
    accounts: &mut Vec<AccountSummary>,
    history: &mut Vec<TradingRecord>,
    name: &str,
    amount: i64,
) -> (found: bool)
    requires
        forall|i: int| 0 <= i < old(accounts)@.len() ==> (#[trigger] old(accounts)@[i]).wf(),
        forall|i: int|
            0 <= i < old(accounts)@.len() && (#[trigger] old(accounts)@[i]).name@ == name@
                ==> in_range(old(accounts)@[i].current_amount + amount),
    ensures
        found <==> exists|i: int|
            0 <= i < old(accounts)@.len() && (#[trigger] old(accounts)@[i]).name@ == name@,
        !found ==> *final(accounts) == *old(accounts) && *final(history) == *old(history),
        forall|i: int| 0 <= i < final(accounts)@.len() ==> (#[trigger] final(accounts)@[i]).wf(),
        final(accounts)@.len() == old(accounts)@.len(),
        forall|i: int|
            first_named(old(accounts)@, name@, i) ==> {
                &&& forall|j: int|
                    0 <= j < old(accounts)@.len() && j != i ==> final(accounts)@[j] == old(
                        accounts,
                    )@[j]
                &&& final(accounts)@[i].name == old(accounts)@[i].name
                &&& final(accounts)@[i].initial_amount == old(accounts)@[i].initial_amount
                &&& final(accounts)@[i].current_amount == old(accounts)@[i].current_amount
                    + amount
                &&& final(history)@.len() == old(history)@.len() + 1
                &&& final(history)@.drop_last() == old(history)@
                &&& final(history)@.last().name@ == name@
                &&& final(history)@.last().transaction == amount
                &&& final(history)@.last().new_balance == final(accounts)@[i].current_amount
                &&& final(history)@.last().percentage_change as int == percent_of(
                    amount as int,
                    old(accounts)@[i].initial_amount as int,
                )
            },
{
    let target = name.to_owned();
    let mut i: usize = 0;
    while i < accounts.len()
        invariant
            i <= accounts@.len(),
            target@ == name@,
            *accounts == *old(accounts),
            *history == *old(history),
            forall|j: int| 0 <= j < i ==> (#[trigger] accounts@[j]).name@ != name@,
        decreases accounts@.len() - i,
    {
        if accounts[i].name == target {
            assert(old(accounts)@[i as int].wf());
            assert(in_range(old(accounts)@[i as int].current_amount + amount));
            let old_acc = &accounts[i];
            let current = old_acc.current_amount + amount;
            let initial = old_acc.initial_amount;
            let updated = AccountSummary::new(old_acc.name.clone(), initial, current);
            let record = TradingRecord {
                name: target,
                transaction: amount,
                new_balance: current,
                percentage_change: percent(amount, initial),
            };
            accounts.set(i, updated);
            history.push(record);
            proof {
                assert forall|k: int| first_named(old(accounts)@, name@, k) implies k == i by {
                    if k < i {
                    } else if k > i {
                        assert(old(accounts)@[i as int].name@ == name@);
                    }
                }
                assert(final(history)@.drop_last() == old(history)@);
            }
            return true;
        }
        i = i + 1;
    }
    false
}

} // verus!
