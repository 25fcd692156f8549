use stock_dashboard::decimal::parse_decimal;
use stock_dashboard::records::{
    accounts_from_csv, accounts_from_records, process_trade, trades_from_csv, trades_from_records, AccountSummary,
    TradingRecord,
};

fn record(fields: &[&str]) -> Option<Vec<String>> {
    Some(fields.iter().map(|f| f.to_string()).collect())
}

fn chars(s: &str) -> Vec<char> {
    s.chars().collect()
}

#[test]
fn parses_decimals_into_millionths() {
    assert_eq!(parse_decimal(&chars("10.0")), Some(10_000_000));
    assert_eq!(parse_decimal(&chars("-3")), Some(-3_000_000));
    assert_eq!(parse_decimal(&chars("+2.5")), Some(2_500_000));
    assert_eq!(parse_decimal(&chars("189.839996")), Some(189_839_996));
    assert_eq!(parse_decimal(&chars("0.12345678")), Some(123_456));
    assert_eq!(parse_decimal(&chars("7.")), Some(7_000_000));
    assert_eq!(parse_decimal(&chars("999999999999.999999")), Some(999_999_999_999_999_999));
}

#[test]
fn rejects_text_that_is_no_decimal() {
    assert_eq!(parse_decimal(&chars("")), None);
    assert_eq!(parse_decimal(&chars("-")), None);
    assert_eq!(parse_decimal(&chars(".5")), None);
    assert_eq!(parse_decimal(&chars("1.2.3")), None);
    assert_eq!(parse_decimal(&chars("null")), None);
    assert_eq!(parse_decimal(&chars("12a")), None);
    assert_eq!(parse_decimal(&chars("1000000000000")), None);
}

#[test]
fn loaded_accounts_derive_change_from_balances() {
    let data = b"name,initial_amount,current_amount,change,percentage_change\n\
Alice,10.0,15.0,99.0,1.0\nBob,20.0,17.0,-3.0,-15.0\n";
    let accounts = accounts_from_csv(data).unwrap();
    assert_eq!(accounts.len(), 2);
    assert_eq!(accounts[0].name, "Alice");
    assert_eq!(accounts[0].initial_amount, 10_000_000);
    assert_eq!(accounts[0].current_amount, 15_000_000);
    assert_eq!(accounts[0].change, 5_000_000);
    assert_eq!(accounts[0].percentage_change, 50_000_000);
    assert_eq!(accounts[1].change, -3_000_000);
    assert_eq!(accounts[1].percentage_change, -15_000_000);
}

#[test]
fn account_with_zero_start_has_zero_percentage() {
    let data = b"name,initial_amount,current_amount,change,percentage_change\nZed,0,4,4,0\n";
    let accounts = accounts_from_csv(data).unwrap();
    assert_eq!(accounts[0].change, 4_000_000);
    assert_eq!(accounts[0].percentage_change, 0);
}

#[test]
fn malformed_account_record_is_a_decode_failure() {
    let data = b"name,initial_amount,current_amount,change,percentage_change\n\
Alice,10.0,15.0,5.0,50.0\nBob,twenty,17.0,-3.0,-15.0\n";
    let err = accounts_from_csv(data).unwrap_err();
    assert_eq!(err.record, 1);
    let short = b"name,initial_amount,current_amount,change,percentage_change\nAlice,10.0,15.0\n";
    assert_eq!(accounts_from_csv(short).unwrap_err().record, 0);
}

#[test]
fn empty_account_file_loads_nothing() {
    assert_eq!(accounts_from_csv(b"").unwrap().len(), 0);
}

#[test]
fn trades_decode_name_transaction_balance() {
    let data = b"name,transaction,new_balance,percentage_change\nAlice,5.0,15.0,50.0\nBob,-3.0,17.0,-15.0\n";
    let trades = trades_from_csv(data).unwrap();
    assert_eq!(trades.len(), 2);
    assert_eq!(trades[1].name, "Bob");
    assert_eq!(trades[1].transaction, -3_000_000);
    assert_eq!(trades[1].new_balance, 17_000_000);
    let bad = b"name,transaction,new_balance\nAlice,x,15.0\n";
    assert_eq!(trades_from_csv(bad).unwrap_err().record, 0);
}

#[test]
fn trade_on_alice_updates_account_and_ledger() {
    let data = b"name,initial_amount,current_amount,change,percentage_change\nAlice,10.0,10.0,0.0,0.0\n";
    let mut accounts = accounts_from_csv(data).unwrap();
    let mut history: Vec<TradingRecord> = Vec::new();
    assert!(process_trade(&mut accounts, &mut history, "Alice", 5_000_000));
    let a = &accounts[0];
    assert_eq!(a.name, "Alice");
    assert_eq!(a.initial_amount, 10_000_000);
    assert_eq!(a.current_amount, 15_000_000);
    assert_eq!(a.change, 5_000_000);
    assert_eq!(a.percentage_change, 50_000_000);
    assert_eq!(history.len(), 1);
    assert_eq!(history[0].name, "Alice");
    assert_eq!(history[0].transaction, 5_000_000);
    assert_eq!(history[0].new_balance, 15_000_000);
    assert_eq!(history[0].percentage_change, 50_000_000);
}

#[test]
fn trade_on_unknown_account_changes_nothing() {
    let mut accounts = vec![AccountSummary::new("Bob".to_string(), 20_000_000, 20_000_000)];
    let mut history: Vec<TradingRecord> = Vec::new();
    assert!(!process_trade(&mut accounts, &mut history, "Carol", 1_000_000));
    assert_eq!(accounts[0].current_amount, 20_000_000);
    assert!(history.is_empty());
}

#[test]
fn successive_trades_accumulate() {
    let mut accounts = vec![
        AccountSummary::new("Alice".to_string(), 10_000_000, 10_000_000),
        AccountSummary::new("Bob".to_string(), 20_000_000, 20_000_000),
    ];
    let mut history: Vec<TradingRecord> = Vec::new();
    process_trade(&mut accounts, &mut history, "Alice", 5_000_000);
    process_trade(&mut accounts, &mut history, "Bob", -3_000_000);
    process_trade(&mut accounts, &mut history, "Alice", 2_000_000);
    assert_eq!(accounts[0].current_amount, 17_000_000);
    assert_eq!(accounts[0].percentage_change, 70_000_000);
    assert_eq!(accounts[1].current_amount, 17_000_000);
    assert_eq!(accounts[1].percentage_change, -15_000_000);
    assert_eq!(history.len(), 3);
    assert_eq!(history[2].percentage_change, 20_000_000);
}

#[test]
fn accounts_decode_from_given_records() {
    let rows = vec![record(&["Alice", "10", "12.5", "0", "0"]), record(&["Bob", "4", "3", "-1", "-25"])];
    let accounts = accounts_from_records(&rows).unwrap();
    assert_eq!(accounts[0].change, 2_500_000);
    assert_eq!(accounts[0].percentage_change, 25_000_000);
    assert_eq!(accounts[1].percentage_change, -25_000_000);
    let bad = vec![record(&["Alice", "10", "12.5", "0", "0"]), None];
    assert_eq!(accounts_from_records(&bad).unwrap_err().record, 1);
    let short = vec![record(&["Alice", "10", "12.5", "0"])];
    assert_eq!(accounts_from_records(&short).unwrap_err().record, 0);
}

#[test]
fn trades_decode_from_given_records() {
    let rows = vec![record(&["Alice", "5", "15"])];
    let trades = trades_from_records(&rows).unwrap();
    assert_eq!(trades[0].transaction, 5_000_000);
    assert_eq!(trades[0].new_balance, 15_000_000);
    assert_eq!(trades_from_records(&vec![record(&["Alice", "5"])]).unwrap_err().record, 0);
    assert_eq!(trades_from_records(&Vec::new()).unwrap().len(), 0);
}
