use stock_dashboard::catalog::StockInfo;
use stock_dashboard::records::{AccountSummary, TradeRecord};
use stock_dashboard::render::{
    account_cells, format_amount, panels, search_text, stocks_text, trades_text, PanelBody, Region, HELP_TEXT,
};
use stock_dashboard::session::App;

#[test]
fn amounts_show_two_decimals() {
    assert_eq!(format_amount(15_000_000), "15.00");
    assert_eq!(format_amount(-3_000_000), "-3.00");
    assert_eq!(format_amount(1_234_567), "1.23");
    assert_eq!(format_amount(1_235_000), "1.24");
    assert_eq!(format_amount(-4_000), "0.00");
    assert_eq!(format_amount(0), "0.00");
    assert_eq!(format_amount(50_000_000), "50.00");
    assert_eq!(format_amount(i128::MIN).len() > 0, true);
}

#[test]
fn ledger_lines_join_with_newlines() {
    let trades = vec![
        TradeRecord { name: "Alice".to_string(), transaction: 5_000_000, new_balance: 15_000_000 },
        TradeRecord { name: "Bob".to_string(), transaction: -3_000_000, new_balance: 17_000_000 },
    ];
    assert_eq!(trades_text(&trades), "Alice  5.00  15.00\nBob  -3.00  17.00");
    assert_eq!(trades_text(&Vec::new()), "");
}

#[test]
fn catalog_lines_mark_selection() {
    let stocks = vec![
        StockInfo { ticker: "AAPL".to_string(), price: 99_000_000, change: -11_000_000, pct_change: -10_000_000 },
        StockInfo { ticker: "MSFT".to_string(), price: 0, change: 0, pct_change: 0 },
    ];
    assert_eq!(stocks_text(&stocks, 1), "  AAPL  99.00  -11.00 (-10.00%)\n> MSFT  0.00  0.00 (0.00%)");
}

#[test]
fn search_panel_shows_buffer_and_output() {
    assert_eq!(search_text("AAP", "Downloaded data for X"), "Search Ticker: AAP\n\nDownloaded data for X");
}

#[test]
fn account_row_cells() {
    let a = AccountSummary::new("Alice".to_string(), 10_000_000, 15_000_000);
    assert_eq!(account_cells(&a), vec!["Alice", "10.00", "15.00", "5.00", "50.00%"]);
}

#[test]
fn help_overlay_replaces_the_layout() {
    let mut app = App::new();
    app.show_instructions = true;
    let p = panels(&app, &Vec::new());
    assert_eq!(p.len(), 1);
    assert_eq!(p[0].region, Region::Full);
    assert_eq!(p[0].title, "Instructions");
    assert!(matches!(&p[0].body, PanelBody::Text(t) if t == HELP_TEXT));
    assert!(HELP_TEXT.contains("q: Quit"));
}

#[test]
fn layout_has_five_panels() {
    let mut app = App::new();
    app.set_stocks(vec![StockInfo { ticker: "AAPL".to_string(), price: 1_000_000, change: 0, pct_change: 0 }]);
    app.accounts = vec![AccountSummary::new("Alice".to_string(), 10_000_000, 15_000_000)];
    app.ml_output = "done".to_string();
    let trades = vec![TradeRecord { name: "Alice".to_string(), transaction: 5_000_000, new_balance: 15_000_000 }];
    let p = panels(&app, &trades);
    let titles: Vec<&str> = p.iter().map(|x| x.title.as_str()).collect();
    assert_eq!(titles, vec!["Stock Chart", "Live Trades", "Account Summary", "ML List", "Search"]);
    let regions: Vec<Region> = p.iter().map(|x| x.region).collect();
    assert_eq!(regions, vec![Region::Chart, Region::Trades, Region::Accounts, Region::Catalog, Region::Search]);
    assert!(matches!(&p[0].body, PanelBody::TrendChart));
    assert!(matches!(&p[1].body, PanelBody::Text(t) if t == "Alice  5.00  15.00"));
    assert!(matches!(&p[2].body, PanelBody::Table(rows) if rows.len() == 1 && rows[0][4] == "50.00%"));
    assert!(matches!(&p[3].body, PanelBody::Text(t) if t == "> AAPL  1.00  0.00 (0.00%)"));
    assert!(matches!(&p[4].body, PanelBody::Text(t) if t == "Search Ticker: \n\ndone"));
}
