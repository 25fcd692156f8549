use stock_dashboard::catalog::{closes_from_records, closing_prices, get_stock_info, load_stocks, stock_entry, ticker_of_file};
use stock_dashboard::decimal::percent;

const HEADER: &str = "Date,Open,High,Low,Close,Adj Close,Volume\n";

fn series(closes: &[&str]) -> Vec<u8> {
    let mut s = HEADER.to_string();
    for c in closes {
        s.push_str(&format!("2024-01-01,1,1,1,{},1,100\n", c));
    }
    s.into_bytes()
}

#[test]
fn change_is_last_minus_previous() {
    let data = series(&["100.0", "110.0", "99.0"]);
    let info = get_stock_info(&data, "AAPL").unwrap();
    assert_eq!(info.ticker, "AAPL");
    assert_eq!(info.price, 99_000_000);
    assert_eq!(info.change, -11_000_000);
    assert_eq!(info.pct_change, -10_000_000);
}

#[test]
fn zero_previous_gives_zero_percentage() {
    let data = series(&["0", "5"]);
    let info = get_stock_info(&data, "ZERO").unwrap();
    assert_eq!(info.change, 5_000_000);
    assert_eq!(info.pct_change, 0);
}

#[test]
fn unreadable_close_rows_are_skipped() {
    let data = series(&["10", "null", "12"]);
    assert_eq!(closing_prices(&data), vec![10_000_000, 12_000_000]);
    let info = get_stock_info(&data, "X").unwrap();
    assert_eq!(info.change, 2_000_000);
    assert_eq!(info.pct_change, 20_000_000);
}

#[test]
fn fewer_than_two_prices_gives_zero_entry() {
    let data = series(&["42.0"]);
    assert!(get_stock_info(&data, "ONE").is_none());
    let e = stock_entry("ONE", Some(&data));
    assert_eq!(e.ticker, "ONE");
    assert_eq!((e.price, e.change, e.pct_change), (0, 0, 0));
    let missing = stock_entry("GONE", None);
    assert_eq!((missing.price, missing.change, missing.pct_change), (0, 0, 0));
}

#[test]
fn percentage_truncates_toward_zero() {
    assert_eq!(percent(1, 3), 33_333_333);
    assert_eq!(percent(-1, 3), -33_333_333);
    assert_eq!(percent(1, -3), -33_333_333);
    assert_eq!(percent(5, 0), 0);
}

#[test]
fn ticker_comes_from_csv_file_name() {
    assert_eq!(ticker_of_file("AAPL.csv"), Some("AAPL".to_string()));
    assert_eq!(ticker_of_file("BRK.B.csv"), Some("BRK.B".to_string()));
    assert_eq!(ticker_of_file(".csv"), None);
    assert_eq!(ticker_of_file("notes.txt"), None);
    assert_eq!(ticker_of_file("AAPL.CSV"), None);
}

#[test]
fn catalog_keeps_listing_order_and_skips_other_files() {
    let files = vec![
        ("TSLA.csv".to_string(), Some(series(&["200", "210"]))),
        ("readme.md".to_string(), Some(Vec::new())),
        ("AAPL.csv".to_string(), None),
        ("MSFT.csv".to_string(), Some(series(&["300"]))),
    ];
    let stocks = load_stocks(&files);
    assert_eq!(stocks.len(), 3);
    assert_eq!(stocks[0].ticker, "TSLA");
    assert_eq!(stocks[0].price, 210_000_000);
    assert_eq!(stocks[0].change, 10_000_000);
    assert_eq!(stocks[0].pct_change, 5_000_000);
    assert_eq!(stocks[1].ticker, "AAPL");
    assert_eq!(stocks[1].price, 0);
    assert_eq!(stocks[2].ticker, "MSFT");
    assert_eq!(stocks[2].price, 0);
}

#[test]
fn closes_read_from_given_records() {
    let row = |c: &str| Some(vec!["d".to_string(), "1".to_string(), "1".to_string(), "1".to_string(), c.to_string()]);
    let rows = vec![row("1.5"), None, row("x"), Some(vec!["short".to_string()]), row("-2")];
    assert_eq!(closes_from_records(&rows), vec![1_500_000, -2_000_000]);
}
