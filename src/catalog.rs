//! The catalog of cached price series: one entry per series file, with the
//! latest closing price and its change from the one before.
use vstd::prelude::*;

use crate::decimal::{decimal_units, percent, percent_of};
use crate::records::{csv_records, in_range, read_records, records_view};
use crate::text::chars_of;

verus! {

/// Column of a series record that holds the closing price.
pub const CLOSE_COLUMN: usize = 4;

/// A catalog entry: the latest price, and its change from the previous
/// observation, absolute and in millionths of a percent.
#[derive(Debug)]
pub struct StockInfo {
    pub ticker: String,
    pub price: i64,
    pub change: i64,
    pub pct_change: i128,
}

/// The closing price that a record carries, if it can be read.
pub open spec fn close_of(r: Option<Seq<Seq<char>>>) -> Option<int> {
    match r {
        Some(f) => if f.len() > 4 {
            decimal_units(f[4])
        } else {
            None
        },
        None => None,
    }
}

/// The closing prices of a series, in file order; unreadable records are
/// passed over.
pub open spec fn closes_of(rows: Seq<Option<Seq<Seq<char>>>>) -> Seq<int>
    decreases rows.len(),
{
    if rows.len() == 0 {
        Seq::empty()
    } else {
        let front = closes_of(rows.drop_last());
        match close_of(rows.last()) {
            Some(c) => front.push(c),
            None => front,
        }
    }
}

/// `s` describes the ticker from `closes`: with two or more prices, the last
/// one and its change from the one before (percentage zero when that one is
/// zero); with fewer, all zero.
pub open spec fn describes(s: StockInfo, ticker: Seq<char>, closes: Seq<int>) -> bool {
    &&& s.ticker@ == ticker
    &&& if closes.len() >= 2 {
        let last = closes[closes.len() - 1];
        let prev = closes[closes.len() - 2];
        &&& s.price == last
        &&& s.change == last - prev
        &&& s.pct_change == percent_of(last - prev, prev)
    } else {
        s.price == 0 && s.change == 0 && s.pct_change == 0
    }
}

/// The closing prices that the records of a series file hold, in order.
pub fn closes_from_records(rows: &Vec<Option<Vec<String>>>) -> (r: Vec<i64>)
    ensures
        r@.len() == closes_of(records_view(rows@)).len(),
        forall|i: int| 0 <= i < r@.len() ==> r@[i] as int == #[trigger] closes_of(records_view(rows@))[i],
        forall|i: int| 0 <= i < r@.len() ==> in_range(#[trigger] r@[i] as int),
{
    let ghost rv = records_view(rows@);
    let mut out: Vec<i64> = Vec::new();
    let mut i: usize = 0;
    while i < rows.len()
        invariant
            i <= rows@.len() == rv.len(),
            rv == records_view(rows@),
            out@.len() == closes_of(rv.take(i as int)).len(),
            forall|j: int| 0 <= j < out@.len() ==> out@[j] as int == #[trigger] closes_of(rv.take(i as int))[j],
            forall|j: int| 0 <= j < out@.len() ==> in_range(#[trigger] out@[j] as int),
        decreases rows@.len() - i,
    {
        assert(rv.take(i + 1).drop_last() == rv.take(i as int));
        assert(rv.take(i + 1).last() == rv[i as int]);
        let ghost before = closes_of(rv.take(i as int));
        if let Some(f) = &rows[i] {
            assert(rv[i as int]->0 == f@.map_values(|s: String| s@));
            if f.len() > CLOSE_COLUMN {
                assert(rv[i as int]->0[4] == f@[4]@);
                let c = chars_of(f[CLOSE_COLUMN].as_str());
                if let Some(v) = crate::decimal::parse_decimal(&c) {
                    out.push(v);
                    assert(closes_of(rv.take(i + 1)) == before.push(v as int));
                }
            }
        } else {
            assert(rv[i as int] is None);
        }
        i = i + 1;
    }
    assert(rv.take(rv.len() as int) == rv);
    out
}

/// The closing prices that a series file holds, in order.
pub fn closing_prices(data: &[u8]) -> (r: Vec<i64>)
    ensures
        r@.len() == closes_of(csv_records(data@)).len(),
        forall|i: int| 0 <= i < r@.len() ==> r@[i] as int == #[trigger] closes_of(csv_records(data@))[i],
        forall|i: int| 0 <= i < r@.len() ==> in_range(#[trigger] r@[i] as int),
{
    let rows = read_records(data);
    closes_from_records(&rows)
}

/// Describes a ticker from its closing prices.
pub fn stock_info(ticker: String, closes: &Vec<i64>) -> (r: StockInfo)
    requires
        forall|i: int| 0 <= i < closes@.len() ==> in_range(#[trigger] closes@[i] as int),
    ensures
        describes(r, ticker@, closes@.map_values(|x: i64| x as int)),
{
    let ghost cs = closes@.map_values(|x: i64| x as int);
    let n = closes.len();
    if n >= 2 {
        let last = closes[n - 1];
        let prev = closes[n - 2];
        assert(cs[n - 1] == last && cs[n - 2] == prev);
        assert(in_range(last as int) && in_range(prev as int));
        let change = last - prev;
        StockInfo { ticker, price: last, change, pct_change: percent(change, prev) }
    } else {
        StockInfo { ticker, price: 0, change: 0, pct_change: 0 }
    }
}

/// Describes a ticker from its series file, when it holds at least two
/// closing prices.
pub fn get_stock_info(data: &[u8], ticker: &str) -> (r: Option<StockInfo>)
    ensures
        r is Some <==> closes_of(csv_records(data@)).len() >= 2,
        r is Some ==> describes(r->0, ticker@, closes_of(csv_records(data@))),
{
    let closes = closing_prices(data);
    assert(closes@.map_values(|x: i64| x as int) == closes_of(csv_records(data@)));
    if closes.len() >= 2 {
        Some(stock_info(ticker.to_owned(), &closes))
    } else {
        None
    }
}

/// The ticker that a cache file stands for: the base name of a file named
/// `<ticker>.csv`, with a non-empty base name.
pub open spec fn ticker_of(name: Seq<char>) -> Option<Seq<char>> {
    if name.len() > 4 && name.skip(name.len() - 4) == seq!['.', 'c', 's', 'v'] {
        Some(name.take(name.len() - 4))
    } else {
        None
    }
}

/// The ticker of a cache file, or `None` for a file of another kind.
pub fn ticker_of_file(name: &str) -> (r: Option<String>)
    ensures
        r is Some <==> ticker_of(name@) is Some,
        r is Some ==> r->0@ == ticker_of(name@)->0,
{
    let c = chars_of(name);
    let n = c.len();
    if n > 4 && c[n - 4] == '.' && c[n - 3] == 'c' && c[n - 2] == 's' && c[n - 1] == 'v' {
        assert(c@.skip(n - 4) == seq!['.', 'c', 's', 'v']);
        Some(name.substring_char(0, n - 4).to_owned())
    } else {
        proof {
            if n > 4 && c@.skip(n - 4) == seq!['.', 'c', 's', 'v'] {
                assert(c@.skip(n - 4)[0] == c@[n - 4]);
                assert(c@.skip(n - 4)[1] == c@[n - 3]);
                assert(c@.skip(n - 4)[2] == c@[n - 2]);
                assert(c@.skip(n - 4)[3] == c@[n - 1]);
            }
        }
        None
    }
}

/// The catalog entry for one ticker: described from its series file, or all
/// zero when the file could not be read or holds fewer than two prices.
pub fn stock_entry(ticker: &str, data: Option<&[u8]>) -> (r: StockInfo)
    ensures
        data is Some ==> describes(r, ticker@, closes_of(csv_records(data->0@))),
        data is None ==> describes(r, ticker@, Seq::empty()),
{
    match data {
        Some(d) => match get_stock_info(d, ticker) {
            Some(info) => info,
            None => StockInfo { ticker: ticker.to_owned(), price: 0, change: 0, pct_change: 0 },
        },
        None => StockInfo { ticker: ticker.to_owned(), price: 0, change: 0, pct_change: 0 },
    }
}

/// Indices of the files, in order, that are cache files.
pub open spec fn listed(names: Seq<Seq<char>>) -> Seq<int>
    decreases names.len(),
{
    if names.len() == 0 {
        Seq::empty()
    } else {
        let front = listed(names.drop_last());
        if ticker_of(names.last()) is Some {
            front.push(names.len() - 1)
        } else {
            front
        }
    }
}

pub open spec fn file_names(files: Seq<(String, Option<Vec<u8>>)>) -> Seq<Seq<char>> {
    files.map_values(|f: (String, Option<Vec<u8>>)| f.0@)
}

/// What the catalog entry for the file `f` holds.
pub open spec fn entry_for(s: StockInfo, f: (String, Option<Vec<u8>>)) -> bool {
    match f.1 {
        Some(d) => describes(s, ticker_of(f.0@)->0, closes_of(csv_records(d@))),
        None => describes(s, ticker_of(f.0@)->0, Seq::empty()),
    }
}

proof fn lemma_listed_increasing(names: Seq<Seq<char>>)
    ensures
        forall|k: int|
            0 <= k < listed(names).len() ==> 0 <= #[trigger] listed(names)[k] < names.len()
                && ticker_of(names[listed(names)[k]]) is Some,
        forall|k1: int, k2: int|
            0 <= k1 < k2 < listed(names).len() ==> #[trigger] listed(names)[k1] < #[trigger] listed(
                names,
            )[k2],
    decreases names.len(),
{
    if names.len() > 0 {
        let front = names.drop_last();
        lemma_listed_increasing(front);
        assert forall|k: int| 0 <= k < listed(front).len() implies names[listed(front)[k]] == front[listed(front)[k]] by {}
    }
}

proof fn lemma_ticker_determines_name(a: Seq<char>, b: Seq<char>)
    requires
        ticker_of(a) is Some,
        ticker_of(b) is Some,
        ticker_of(a)->0 == ticker_of(b)->0,
    ensures
        a == b,
{
    assert(a =~= a.take(a.len() - 4) + a.skip(a.len() - 4));
    assert(b =~= b.take(b.len() - 4) + b.skip(b.len() - 4));
}

/// When the files' names are distinct, as in one directory, the tickers of
/// the catalog built from them are distinct too.
pub proof fn lemma_tickers_distinct(names: Seq<Seq<char>>)
    requires
        forall|i: int, j: int| 0 <= i < j < names.len() ==> names[i] != names[j],
    ensures
        forall|k1: int, k2: int|
            0 <= k1 < k2 < listed(names).len() ==> ticker_of(names[#[trigger] listed(names)[k1]])->0
                != ticker_of(names[#[trigger] listed(names)[k2]])->0,
{
    lemma_listed_increasing(names);
    assert forall|k1: int, k2: int| 0 <= k1 < k2 < listed(names).len() implies ticker_of(
        names[#[trigger] listed(names)[k1]],
    )->0 != ticker_of(names[#[trigger] listed(names)[k2]])->0 by {
        let i = listed(names)[k1];
        let j = listed(names)[k2];
        if ticker_of(names[i])->0 == ticker_of(names[j])->0 {
            lemma_ticker_determines_name(names[i], names[j]);
        }
    }
}

/// Builds the catalog from the files of the cache directory, each given by
/// name with its contents (`None` where it could not be read), in the order
/// they were listed. Files of other kinds are passed over.
pub fn load_stocks(files: &Vec<(String, Option<Vec<u8>>)>) -> (r: Vec<StockInfo>)
    ensures
        r@.len() == listed(file_names(files@)).len(),
        forall|k: int|
            0 <= k < r@.len() ==> entry_for(#[trigger] r@[k], files@[listed(file_names(files@))[k]]),
{
    let ghost names = file_names(files@);
    let mut out: Vec<StockInfo> = Vec::new();
    let mut i: usize = 0;
    while i < files.len()
        invariant
            i <= files@.len(),
            names == file_names(files@),
            out@.len() == listed(names.take(i as int)).len(),
            forall|k: int|
                0 <= k < out@.len() ==> entry_for(#[trigger] out@[k], files@[listed(names.take(i as int))[k]]),
        decreases files@.len() - i,
    {
        assert(names.take(i + 1).drop_last() == names.take(i as int));
        assert(names.take(i + 1).last() == files@[i as int].0@);
        let ghost before = listed(names.take(i as int));
        let (name, contents) = &files[i];
        if let Some(ticker) = ticker_of_file(name.as_str()) {
            let entry = match contents {
                Some(d) => stock_entry(ticker.as_str(), Some(d.as_slice())),
                None => stock_entry(ticker.as_str(), None),
            };
            out.push(entry);
            assert(listed(names.take(i + 1)) == before.push(i as int));
        }
        i = i + 1;
    }
    assert(names.take(files@.len() as int) == names);
    out
}

} // verus!
