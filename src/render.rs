//! The text of the dashboard's panels: amounts shown to two decimals, the
//! trade ledger, the account table, the catalog list and the search panel.
use vstd::prelude::*;

use crate::catalog::StockInfo;
use crate::records::{AccountSummary, TradeRecord};
use crate::session::App;
use crate::text::{join, push_char};

verus! {

pub open spec fn digit_char(d: int) -> char {
    seq!['0', '1', '2', '3', '4', '5', '6', '7', '8', '9'][d]
}

/// The decimal digits of `n`, without leading zeros.
pub open spec fn digits_text(n: nat) -> Seq<char>
    decreases n,
{
    if n < 10 {
        seq![digit_char(n as int)]
    } else {
        digits_text(n / 10).push(digit_char((n % 10) as int))
    }
}

/// Magnitude of an amount in hundredths, rounded half away from zero.
pub open spec fn hundredths(v: int) -> nat {
    let a = if v < 0 {
        -v
    } else {
        v
    };
    ((a + 5_000) / 10_000) as nat
}

/// An amount in millionths shown with two decimals (`-12.50`, `0.07`); a
/// minus sign only when the rounded value is not zero.
pub open spec fn amount_text(v: int) -> Seq<char> {
    let c = hundredths(v);
    let sign = if v < 0 && c > 0 {
        seq!['-']
    } else {
        Seq::empty()
    };
    sign + digits_text(c / 100) + seq!['.', digit_char((c % 100) as int / 10), digit_char(
        (c % 100) as int % 10,
    )]
}

fn digit(d: u128) -> (c: char)
    requires
        d < 10,
    ensures
        c == digit_char(d as int),
{
    let table = ['0', '1', '2', '3', '4', '5', '6', '7', '8', '9'];
    assert(table@ == seq!['0', '1', '2', '3', '4', '5', '6', '7', '8', '9']);
    table[d as usize]
}

fn push_digits(s: &mut String, n: u128)
    ensures
        final(s)@ == old(s)@ + digits_text(n as nat),
    decreases n,
{
    if n >= 10 {
        push_digits(s, n / 10);
    }
    push_char(s, digit(n % 10));
    assert(final(s)@ == old(s)@ + digits_text(n as nat));
}

/// Shows an amount in millionths with two decimals.
pub fn format_amount(v: i128) -> (r: String)
    ensures
        r@ == amount_text(v as int),
{
    let a: u128 = if v < 0 {
        (-(v + 1)) as u128 + 1
    } else {
        v as u128
    };
    let c = (a + 5_000) / 10_000;
    let mut s = String::new();
    if v < 0 && c > 0 {
        push_char(&mut s, '-');
    }
    let ghost sign = s@;
    push_digits(&mut s, c / 100);
    push_char(&mut s, '.');
    push_char(&mut s, digit((c % 100) / 10));
    push_char(&mut s, digit((c % 100) % 10));
    assert(s@ == sign + digits_text((c / 100) as nat) + seq!['.', digit_char((c % 100) as int / 10), digit_char(
        (c % 100) as int % 10,
    )]);
    s
}

/// Lines joined by line breaks.
pub open spec fn lines_text(lines: Seq<Seq<char>>) -> Seq<char>
    decreases lines.len(),
{
    if lines.len() == 0 {
        Seq::empty()
    } else if lines.len() == 1 {
        lines[0]
    } else {
        lines_text(lines.drop_last()) + seq!['\n'] + lines.last()
    }
}

/// One line of the live trade ledger: name, transaction, new balance.
pub open spec fn trade_line(t: TradeRecord) -> Seq<char> {
    t.name@ + "  "@ + amount_text(t.transaction as int) + "  "@ + amount_text(t.new_balance as int)
}

/// One line of the catalog list; the selected entry is marked with `>`.
pub open spec fn stock_line(s: StockInfo, is_selected: bool) -> Seq<char> {
    (if is_selected {
        ">"@
    } else {
        " "@
    }) + " "@ + s.ticker@ + "  "@ + amount_text(s.price as int) + "  "@ + amount_text(
        s.change as int,
    ) + " ("@ + amount_text(s.pct_change as int) + "%)"@
}

/// The search panel: the search buffer, a blank line, the last output.
pub open spec fn search_panel(search: Seq<char>, output: Seq<char>) -> Seq<char> {
    "Search Ticker: "@ + search + "\n\n"@ + output
}

/// The text of the live trade ledger panel.
pub fn trades_text(trades: &Vec<TradeRecord>) -> (r: String)
    ensures
        r@ == lines_text(trades@.map_values(|t: TradeRecord| trade_line(t))),
{
    let ghost lines = trades@.map_values(|t: TradeRecord| trade_line(t));
    let mut out = String::new();
    let mut i: usize = 0;
    while i < trades.len()
        invariant
            i <= trades@.len(),
            lines == trades@.map_values(|t: TradeRecord| trade_line(t)),
            out@ == lines_text(lines.take(i as int)),
        decreases trades@.len() - i,
    {
        let t = &trades[i];
        let line = join(t.name.as_str(), "  ");
        let line = join(line.as_str(), format_amount(t.transaction as i128).as_str());
        let line = join(line.as_str(), "  ");
        let line = join(line.as_str(), format_amount(t.new_balance as i128).as_str());
        assert(line@ == lines[i as int]);
        assert(lines.take(i + 1).drop_last() == lines.take(i as int));
        assert(lines.take(i + 1).last() == lines[i as int]);
        if i > 0 {
            let ghost before = out@;
            out = join(out.as_str(), "\n");
            out = join(out.as_str(), line.as_str());
            proof {
                reveal_strlit("\n");
                assert(out@ == before + seq!['\n'] + line@);
            }
        } else {
            out = line;
            assert(lines.take(1).len() == 1);
            assert(lines.take(1)[0] == lines[0]);
        }
        i = i + 1;
    }
    assert(lines.take(trades@.len() as int) == lines);
    out
}

/// The text of the catalog list panel.
pub fn stocks_text(stocks: &Vec<StockInfo>, selected: usize) -> (r: String)
    ensures
        r@ == lines_text(
            Seq::new(stocks@.len(), |i: int| stock_line(stocks@[i], i == selected as int)),
        ),
{
    let ghost lines = Seq::new(stocks@.len(), |i: int| stock_line(stocks@[i], i == selected as int));
    let mut out = String::new();
    let mut i: usize = 0;
    while i < stocks.len()
        invariant
            i <= stocks@.len(),
            lines == Seq::new(stocks@.len(), |i: int| stock_line(stocks@[i], i == selected as int)),
            out@ == lines_text(lines.take(i as int)),
        decreases stocks@.len() - i,
    {
        let s = &stocks[i];
        let marker = if i == selected { ">" } else { " " };
        let line = join(marker, " ");
        let line = join(line.as_str(), s.ticker.as_str());
        let line = join(line.as_str(), "  ");
        let line = join(line.as_str(), format_amount(s.price as i128).as_str());
        let line = join(line.as_str(), "  ");
        let line = join(line.as_str(), format_amount(s.change as i128).as_str());
        let line = join(line.as_str(), " (");
        let line = join(line.as_str(), format_amount(s.pct_change).as_str());
        let line = join(line.as_str(), "%)");
        assert(line@ == lines[i as int]);
        assert(lines.take(i + 1).drop_last() == lines.take(i as int));
        assert(lines.take(i + 1).last() == lines[i as int]);
        if i > 0 {
            let ghost before = out@;
            out = join(out.as_str(), "\n");
            out = join(out.as_str(), line.as_str());
            proof {
                reveal_strlit("\n");
                assert(out@ == before + seq!['\n'] + line@);
            }
        } else {
            out = line;
            assert(lines.take(1).len() == 1);
            assert(lines.take(1)[0] == lines[0]);
        }
        i = i + 1;
    }
    assert(lines.take(stocks@.len() as int) == lines);
    out
}

/// The text of the search panel.
pub fn search_text(search: &str, output: &str) -> (r: String)
    ensures
        r@ == search_panel(search@, output@),
{
    let head = join("Search Ticker: ", search);
    let head = join(head.as_str(), "\n\n");
    join(head.as_str(), output)
}

/// `r` holds the cells of the account table's row for `a`: name, initial,
/// current, change, and percentage change followed by `%`.
pub open spec fn is_account_row(r: Seq<String>, a: AccountSummary) -> bool {
    &&& r.len() == 5
    &&& r[0]@ == a.name@
    &&& r[1]@ == amount_text(a.initial_amount as int)
    &&& r[2]@ == amount_text(a.current_amount as int)
    &&& r[3]@ == amount_text(a.change as int)
    &&& r[4]@ == amount_text(a.percentage_change as int) + "%"@
}

/// The cells of one row of the account table.
pub fn account_cells(a: &AccountSummary) -> (r: Vec<String>)
    ensures
        is_account_row(r@, *a),
{
    let mut r: Vec<String> = Vec::new();
    r.push(a.name.clone());
    r.push(format_amount(a.initial_amount as i128));
    r.push(format_amount(a.current_amount as i128));
    r.push(format_amount(a.change as i128));
    r.push(join(format_amount(a.percentage_change).as_str(), "%"));
    r
}

/// Shares of the screen height taken by the top, middle and bottom bands.
pub const TOP_SHARE: u16 = 50;

pub const MIDDLE_SHARE: u16 = 30;

pub const BOTTOM_SHARE: u16 = 20;

/// Shares of a band's width taken by its left and right panels.
pub const LEFT_SHARE: u16 = 70;

pub const RIGHT_SHARE: u16 = 30;

/// The text of the help overlay.
pub const HELP_TEXT: &'static str = "Instructions:\n - Up/Down: Navigate ML stock list\n - Enter (List mode): Preprocess & train on selected stock\n - s: Activate search box\n - In Search mode: Type ticker and press Enter to download data\n - Esc (in Search mode): Cancel search\n - h: Toggle instructions overlay\n - q: Quit";

/// Where a panel stands: the whole screen, or one place of the fixed layout
/// (top band: chart left, trades right; middle band: accounts; bottom band:
/// catalog left, search right).
#[derive(Clone, Copy, Debug, PartialEq, Eq, Structural)]
pub enum Region {
    Full,
    Chart,
    Trades,
    Accounts,
    Catalog,
    Search,
}

/// What a panel shows.
#[derive(Debug)]
pub enum PanelBody {
    Text(String),
    /// The fixed illustrative price trend.
    TrendChart,
    /// The account table, one row of cells per account.
    Table(Vec<Vec<String>>),
}

#[derive(Debug)]
pub struct Panel {
    pub region: Region,
    pub title: String,
    pub body: PanelBody,
}

pub open spec fn text_panel(p: Panel, region: Region, title: Seq<char>, text: Seq<char>) -> bool {
    &&& p.region == region
    &&& p.title@ == title
    &&& p.body is Text
    &&& p.body->Text_0@ == text
}

/// The panels of one frame: the help panel alone while the overlay is on,
/// else the five panels of the fixed layout, drawn from the session, the
/// ledger just read and the accounts.
pub fn panels(app: &App, trades: &Vec<TradeRecord>) -> (r: Vec<Panel>)
    ensures
        app.show_instructions ==> r@.len() == 1 && text_panel(
            r@[0],
            Region::Full,
            "Instructions"@,
            HELP_TEXT@,
        ),
        !app.show_instructions ==> {
            &&& r@.len() == 5
            &&& r@[0].region == Region::Chart
            &&& r@[0].title@ == "Stock Chart"@
            &&& r@[0].body is TrendChart
            &&& text_panel(
                r@[1],
                Region::Trades,
                "Live Trades"@,
                lines_text(trades@.map_values(|t: TradeRecord| trade_line(t))),
            )
            &&& r@[2].region == Region::Accounts
            &&& r@[2].title@ == "Account Summary"@
            &&& r@[2].body is Table
            &&& r@[2].body->Table_0@.len() == app.accounts@.len()
            &&& forall|k: int|
                0 <= k < app.accounts@.len() ==> is_account_row(
                    (#[trigger] r@[2].body->Table_0@[k])@,
                    app.accounts@[k],
                )
            &&& text_panel(
                r@[3],
                Region::Catalog,
                "ML List"@,
                lines_text(
                    Seq::new(
                        app.stocks@.len(),
                        |i: int| stock_line(app.stocks@[i], i == app.selected as int),
                    ),
                ),
            )
            &&& text_panel(
                r@[4],
                Region::Search,
                "Search"@,
                search_panel(app.search_input@, app.ml_output@),
            )
        },
{
    let mut r: Vec<Panel> = Vec::new();
    if app.show_instructions {
        r.push(Panel { region: Region::Full, title: "Instructions".to_owned(), body: PanelBody::Text(HELP_TEXT.to_owned()) });
        return r;
    }
    r.push(Panel { region: Region::Chart, title: "Stock Chart".to_owned(), body: PanelBody::TrendChart });
    r.push(Panel { region: Region::Trades, title: "Live Trades".to_owned(), body: PanelBody::Text(trades_text(trades)) });
    let mut rows: Vec<Vec<String>> = Vec::new();
    let mut k: usize = 0;
    while k < app.accounts.len()
        invariant
            k <= app.accounts@.len(),
            rows@.len() == k,
            forall|j: int| 0 <= j < k ==> is_account_row((#[trigger] rows@[j])@, app.accounts@[j]),
        decreases app.accounts@.len() - k,
    {
        rows.push(account_cells(&app.accounts[k]));
        k = k + 1;
    }
    r.push(Panel { region: Region::Accounts, title: "Account Summary".to_owned(), body: PanelBody::Table(rows) });
    r.push(Panel { region: Region::Catalog, title: "ML List".to_owned(), body: PanelBody::Text(stocks_text(&app.stocks, app.selected)) });
    r.push(Panel { region: Region::Search, title: "Search".to_owned(), body: PanelBody::Text(search_text(app.search_input.as_str(), app.ml_output.as_str())) });
    r
}

} // verus!
