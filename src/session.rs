//! The interactive session: its state, what each key does to it, and the
//! messages that report the outcome of the external actions.
use vstd::prelude::*;

use crate::catalog::StockInfo;
use crate::records::AccountSummary;
use crate::text::{join, pop_char, push_char, trim_text, trimmed, upper_of, upper_text};

verus! {

/// Interaction mode of the session.
#[derive(Clone, Copy, Debug, PartialEq, Eq, Structural)]
pub enum Mode {
    List,
    Search,
}

/// A key press, as the session distinguishes it.
#[derive(Clone, Copy, Debug, PartialEq, Eq, Structural)]
pub enum Key {
    Char(char),
    Enter,
    Esc,
    Up,
    Down,
    Backspace,
    Other,
}

/// How a run of an external script ended.
#[derive(Debug)]
pub enum Outcome {
    /// It exited with status zero; its standard output.
    Success(String),
    /// It exited otherwise; its standard error.
    ScriptFailure(String),
    /// It could not be started; why.
    LaunchFailure(String),
}

/// What the caller must do after a key press.
#[derive(Debug)]
pub enum Command {
    Nothing,
    Quit,
    /// Run the download script for this ticker, then report through
    /// `finish_download`.
    Download(String),
    /// Run the preprocess script on the series file at `series_path` and
    /// report through `finish_preprocess`, which says what comes next.
    Predict { ticker: String, series_path: String },
}

/// What the caller must do once an action has reported back.
#[derive(Clone, Copy, Debug, PartialEq, Eq, Structural)]
pub enum FollowUp {
    /// Run the prediction script next and report it through `finish_prediction`.
    RunModel,
    /// Scan the cache directory again and install it through `set_stocks`.
    ReloadCatalog,
    /// Nothing more.
    Done,
}

/// Which of the commands a key press calls for.
pub enum CommandKind {
    Nothing,
    Quit,
    Download,
    Predict,
}

impl Command {
    pub open spec fn kind(&self) -> CommandKind {
        match self {
            Command::Nothing => CommandKind::Nothing,
            Command::Quit => CommandKind::Quit,
            Command::Download(_) => CommandKind::Download,
            Command::Predict { .. } => CommandKind::Predict,
        }
    }
}

/// The part of the session that keys act on.
pub struct Session {
    pub mode: Mode,
    pub selected: int,
    pub search: Seq<char>,
    pub output: Seq<char>,
    pub help: bool,
}

/// What a key press does to the session when the catalog holds `n` entries.
/// `Enter` changes nothing at once: the action it starts reports back when
/// it is done.
pub open spec fn after_key(s: Session, k: Key, n: nat) -> Session {
    match k {
        Key::Char(c) => if c == 'q' {
            s
        } else if c == 'h' {
            Session { help: !s.help, ..s }
        } else if c == 's' {
            Session { mode: Mode::Search, search: Seq::empty(), ..s }
        } else if s.mode == Mode::Search {
            Session { search: s.search.push(c), ..s }
        } else {
            s
        },
        Key::Esc => Session { mode: Mode::List, search: Seq::empty(), ..s },
        Key::Down => if s.mode == Mode::List && n > 0 {
            Session { selected: (s.selected + 1) % (n as int), ..s }
        } else {
            s
        },
        Key::Up => if s.mode == Mode::List && n > 0 {
            Session { selected: (s.selected + n - 1) % (n as int), ..s }
        } else {
            s
        },
        Key::Backspace => if s.mode == Mode::Search && s.search.len() > 0 {
            Session { search: s.search.drop_last(), ..s }
        } else {
            s
        },
        Key::Enter | Key::Other => s,
    }
}

/// The command that a key press calls for: `q` quits; `Enter` downloads the
/// searched ticker in search mode, when there is one, and runs the model on
/// the selected entry in list mode, when the selection names one.
pub open spec fn command_for(s: Session, k: Key, n: nat) -> CommandKind {
    match k {
        Key::Char(c) => if c == 'q' {
            CommandKind::Quit
        } else {
            CommandKind::Nothing
        },
        Key::Enter => if s.mode == Mode::Search {
            if search_ticker(s.search).len() > 0 {
                CommandKind::Download
            } else {
                CommandKind::Nothing
            }
        } else if 0 <= s.selected < n {
            CommandKind::Predict
        } else {
            CommandKind::Nothing
        },
        _ => CommandKind::Nothing,
    }
}

/// The ticker that `Enter` in search mode asks for.
pub open spec fn search_ticker(search: Seq<char>) -> Seq<char> {
    upper_of(trimmed(search))
}

pub open spec fn text_of_outcome(o: Outcome) -> Seq<char> {
    match o {
        Outcome::Success(t) => t@,
        Outcome::ScriptFailure(t) => t@,
        Outcome::LaunchFailure(t) => t@,
    }
}

/// The message that reports a download of `ticker`.
pub open spec fn download_message(ticker: Seq<char>, o: Outcome) -> Seq<char> {
    match o {
        Outcome::Success(_) => "Downloaded data for "@ + ticker,
        Outcome::ScriptFailure(e) => "Download error: "@ + trimmed(e@),
        Outcome::LaunchFailure(d) => "Failed to run download_stock.py: "@ + d@,
    }
}

/// The message that reports preprocessing the series of `ticker`.
pub open spec fn preprocess_message(ticker: Seq<char>, o: Outcome) -> Seq<char> {
    match o {
        Outcome::Success(_) => "Preprocess OK for "@ + ticker,
        Outcome::ScriptFailure(e) => "Preprocess error: "@ + trimmed(e@),
        Outcome::LaunchFailure(d) => "Failed to run preprocess.py: "@ + d@,
    }
}

/// The message that reports a prediction for `ticker`.
pub open spec fn prediction_message(ticker: Seq<char>, o: Outcome) -> Seq<char> {
    match o {
        Outcome::Success(out) => "ML Prediction for "@ + ticker + ": "@ + trimmed(out@),
        Outcome::ScriptFailure(e) => "Model error: "@ + trimmed(e@),
        Outcome::LaunchFailure(d) => "Failed to run model.py: "@ + d@,
    }
}

/// Path of the cached series file of `ticker`.
pub open spec fn series_path_of(ticker: Seq<char>) -> Seq<char> {
    "pre_stock/"@ + ticker + ".csv"@
}

impl Outcome {
    /// The outcome of a script that ran and exited with `code` (`None` when
    /// it was ended by a signal).
    pub fn from_exit(code: Option<i32>, stdout: String, stderr: String) -> (r: Outcome)
        ensures
            code == Some(0i32) ==> r == Outcome::Success(stdout),
            code != Some(0i32) ==> r == Outcome::ScriptFailure(stderr),
    {
        match code {
            Some(c) => if c == 0 {
                Outcome::Success(stdout)
            } else {
                Outcome::ScriptFailure(stderr)
            },
            None => Outcome::ScriptFailure(stderr),
        }
    }
}

/// Formats the report of a download.
pub fn download_report(ticker: &str, o: &Outcome) -> (r: String)
    ensures
        r@ == download_message(ticker@, *o),
{
    match o {
        Outcome::Success(_) => join("Downloaded data for ", ticker),
        Outcome::ScriptFailure(e) => join("Download error: ", trim_text(e.as_str()).as_str()),
        Outcome::LaunchFailure(d) => join("Failed to run download_stock.py: ", d.as_str()),
    }
}

/// Formats the report of a preprocessing run.
pub fn preprocess_report(ticker: &str, o: &Outcome) -> (r: String)
    ensures
        r@ == preprocess_message(ticker@, *o),
{
    match o {
        Outcome::Success(_) => join("Preprocess OK for ", ticker),
        Outcome::ScriptFailure(e) => join("Preprocess error: ", trim_text(e.as_str()).as_str()),
        Outcome::LaunchFailure(d) => join("Failed to run preprocess.py: ", d.as_str()),
    }
}

/// Formats the report of a prediction run.
pub fn prediction_report(ticker: &str, o: &Outcome) -> (r: String)
    ensures
        r@ == prediction_message(ticker@, *o),
{
    match o {
        Outcome::Success(out) => {
            let head = join("ML Prediction for ", ticker);
            let head = join(head.as_str(), ": ");
            join(head.as_str(), trim_text(out.as_str()).as_str())
        },
        Outcome::ScriptFailure(e) => join("Model error: ", trim_text(e.as_str()).as_str()),
        Outcome::LaunchFailure(d) => join("Failed to run model.py: ", d.as_str()),
    }
}

/// The path of the cached series file of `ticker`.
pub fn series_path(ticker: &str) -> (r: String)
    ensures
        r@ == series_path_of(ticker@),
{
    let head = join("pre_stock/", ticker);
    join(head.as_str(), ".csv")
}

/// The state of the dashboard that lasts from one tick to the next.
pub struct App {
    pub stocks: Vec<StockInfo>,
    pub selected: usize,
    pub ml_mode: Mode,
    pub search_input: String,
    pub show_instructions: bool,
    pub ml_output: String,
    pub accounts: Vec<AccountSummary>,
}

impl App {
    pub open spec fn session(&self) -> Session {
        Session {
            mode: self.ml_mode,
            selected: self.selected as int,
            search: self.search_input@,
            output: self.ml_output@,
            help: self.show_instructions,
        }
    }

    /// The selection names an entry of the catalog whenever there is one.
    pub open spec fn wf(&self) -> bool {
        self.stocks@.len() == 0 || self.selected < self.stocks@.len()
    }

    /// Installs a freshly scanned catalog. A selection past its end moves to
    /// its last entry; the rest of the session is kept.
    pub fn set_stocks(&mut self, stocks: Vec<StockInfo>)
        ensures
            final(self).stocks == stocks,
            final(self).wf(),
            old(self).selected < stocks@.len() || stocks@.len() == 0 ==> final(self).selected
                == old(self).selected,
            old(self).selected >= stocks@.len() && stocks@.len() > 0 ==> final(self).selected
                == stocks@.len() - 1,
            final(self).ml_mode == old(self).ml_mode,
            final(self).search_input == old(self).search_input,
            final(self).ml_output == old(self).ml_output,
            final(self).show_instructions == old(self).show_instructions,
            final(self).accounts == old(self).accounts,
    {
        if stocks.len() > 0 && self.selected >= stocks.len() {
            self.selected = stocks.len() - 1;
        }
        self.stocks = stocks;
    }

    /// A session in list mode with nothing selected yet and no data.
    pub fn new() -> (r: Self)
        ensures
            r.session() == (Session {
                mode: Mode::List,
                selected: 0,
                search: Seq::empty(),
                output: Seq::empty(),
                help: false,
            }),
            r.stocks@.len() == 0,
            r.accounts@.len() == 0,
            r.wf(),
    {
        App {
            stocks: Vec::new(),
            selected: 0,
            ml_mode: Mode::List,
            search_input: String::new(),
            show_instructions: false,
            ml_output: String::new(),
            accounts: Vec::new(),
        }
    }

    /// Applies a key press to the session and says what the caller must do.
    pub fn handle_key(&mut self, key: Key) -> (cmd: Command)
        ensures
            final(self).session() == after_key(old(self).session(), key, old(self).stocks@.len()),
            final(self).stocks == old(self).stocks,
            final(self).accounts == old(self).accounts,
            old(self).wf() ==> final(self).wf(),
            old(self).ml_mode == Mode::List && (key == Key::Up || key == Key::Down)
                && old(self).stocks@.len() > 0 ==> final(self).selected < final(self).stocks@.len(),
            cmd.kind() == command_for(old(self).session(), key, old(self).stocks@.len()),
            cmd is Download ==> cmd->Download_0@ == search_ticker(old(self).search_input@),
            cmd is Predict ==> cmd->ticker@ == old(self).stocks@[old(self).selected as int].ticker@
                && cmd->series_path@ == series_path_of(cmd->ticker@),
    {
        match key {
            Key::Char(c) => {
                if c == 'q' {
                    return Command::Quit;
                } else if c == 'h' {
                    self.show_instructions = !self.show_instructions;
                } else if c == 's' {
                    self.ml_mode = Mode::Search;
                    self.search_input = String::new();
                } else if self.ml_mode == Mode::Search {
                    push_char(&mut self.search_input, c);
                }
                Command::Nothing
            },
            Key::Esc => {
                self.ml_mode = Mode::List;
                self.search_input = String::new();
                Command::Nothing
            },
            Key::Enter => {
                if self.ml_mode == Mode::Search {
                    let trimmed_text = trim_text(self.search_input.as_str());
                    let ticker = upper_text(trimmed_text.as_str());
                    if ticker.as_str().is_empty() {
                        Command::Nothing
                    } else {
                        Command::Download(ticker)
                    }
                } else if self.selected < self.stocks.len() {
                    let ticker = self.stocks[self.selected].ticker.clone();
                    let path = series_path(ticker.as_str());
                    Command::Predict { ticker, series_path: path }
                } else {
                    Command::Nothing
                }
            },
            Key::Down => {
                if self.ml_mode == Mode::List && self.stocks.len() > 0 {
                    self.selected = ((self.selected as u128 + 1) % (self.stocks.len() as u128)) as usize;
                }
                Command::Nothing
            },
            Key::Up => {
                if self.ml_mode == Mode::List && self.stocks.len() > 0 {
                    let n = self.stocks.len() as u128;
                    self.selected = ((self.selected as u128 + n - 1) % n) as usize;
                }
                Command::Nothing
            },
            Key::Backspace => {
                if self.ml_mode == Mode::Search {
                    let _ = pop_char(&mut self.search_input);
                }
                Command::Nothing
            },
            Key::Other => Command::Nothing,
        }
    }

    /// Records the outcome of a download started from search mode: the
    /// report becomes the output message and the session returns to list
    /// mode with an empty search.
    pub fn finish_download(&mut self, ticker: &str, outcome: &Outcome) -> (next: FollowUp)
        ensures
            next == FollowUp::ReloadCatalog,
            old(self).wf() ==> final(self).wf(),
            final(self).ml_output@ == download_message(ticker@, *outcome),
            final(self).ml_mode == Mode::List,
            final(self).search_input@.len() == 0,
            final(self).selected == old(self).selected,
            final(self).show_instructions == old(self).show_instructions,
            final(self).stocks == old(self).stocks,
            final(self).accounts == old(self).accounts,
    {
        self.ml_output = download_report(ticker, outcome);
        self.ml_mode = Mode::List;
        self.search_input = String::new();
        FollowUp::ReloadCatalog
    }

    /// Records the outcome of preprocessing a series as the output message.
    /// The prediction runs next whatever that outcome was.
    pub fn finish_preprocess(&mut self, ticker: &str, outcome: &Outcome) -> (next: FollowUp)
        ensures
            next == FollowUp::RunModel,
            old(self).wf() ==> final(self).wf(),
            final(self).ml_output@ == preprocess_message(ticker@, *outcome),
            final(self).session() == (Session { output: final(self).ml_output@, ..old(self).session() }),
            final(self).stocks == old(self).stocks,
            final(self).accounts == old(self).accounts,
    {
        self.ml_output = preprocess_report(ticker, outcome);
        FollowUp::RunModel
    }

    /// Records the outcome of a prediction as the output message.
    pub fn finish_prediction(&mut self, ticker: &str, outcome: &Outcome) -> (next: FollowUp)
        ensures
            next == FollowUp::Done,
            old(self).wf() ==> final(self).wf(),
            final(self).ml_output@ == prediction_message(ticker@, *outcome),
            final(self).session() == (Session { output: final(self).ml_output@, ..old(self).session() }),
            final(self).stocks == old(self).stocks,
            final(self).accounts == old(self).accounts,
    {
        self.ml_output = prediction_report(ticker, outcome);
        FollowUp::Done
    }
}

/// Pressing a key `times` times over.
pub open spec fn press(s: Session, k: Key, n: nat, times: nat) -> Session
    decreases times,
{
    if times == 0 {
        s
    } else {
        press(after_key(s, k, n), k, n, (times - 1) as nat)
    }
}

proof fn lemma_press_down(s: Session, n: nat, t: nat)
    requires
        n > 0,
        s.mode == Mode::List,
        0 <= s.selected < n,
    ensures
        press(s, Key::Down, n, t) == (Session { selected: (s.selected + t) % (n as int), ..s }),
    decreases t,
{
    if t > 0 {
        let s1 = after_key(s, Key::Down, n);
        vstd::arithmetic::div_mod::lemma_mod_pos_bound(s.selected + 1, n as int);
        lemma_press_down(s1, n, (t - 1) as nat);
        let x = s.selected + 1;
        vstd::arithmetic::div_mod::lemma_add_mod_noop(x, (t - 1) as int, n as int);
        vstd::arithmetic::div_mod::lemma_add_mod_noop_right(x % (n as int), (t - 1) as int, n as int);
    } else {
        vstd::arithmetic::div_mod::lemma_small_mod(s.selected as nat, n);
        assert(press(s, Key::Down, n, t) == s);
    }
}

proof fn lemma_press_up(s: Session, n: nat, t: nat)
    requires
        n > 0,
        s.mode == Mode::List,
        0 <= s.selected < n,
    ensures
        press(s, Key::Up, n, t) == (Session { selected: (s.selected - t) % (n as int), ..s }),
    decreases t,
{
    let m = n as int;
    if t > 0 {
        let s1 = after_key(s, Key::Up, n);
        assert(s1.selected == (s.selected - 1) % m) by {
            vstd::arithmetic::div_mod::lemma_mod_add_multiples_vanish(s.selected - 1, m);
        }
        vstd::arithmetic::div_mod::lemma_mod_pos_bound(s.selected + m - 1, m);
        lemma_press_up(s1, n, (t - 1) as nat);
        let x = s.selected - 1;
        vstd::arithmetic::div_mod::lemma_sub_mod_noop(x, (t - 1) as int, m);
        vstd::arithmetic::div_mod::lemma_sub_mod_noop_right(x % m, (t - 1) as int, m);
        vstd::arithmetic::div_mod::lemma_sub_mod_noop_right(x, (t - 1) as int, m);
    } else {
        vstd::arithmetic::div_mod::lemma_small_mod(s.selected as nat, n);
        assert(press(s, Key::Up, n, t) == s);
    }
}

/// Over a catalog of `n > 0` entries, pressing `Down` `n` times brings the
/// selection back to where it started, and so does pressing `Up` `n` times.
pub proof fn lemma_selection_wraps(s: Session, n: nat)
    requires
        n > 0,
        0 <= s.selected < n,
    ensures
        press(s, Key::Down, n, n) == s,
        press(s, Key::Up, n, n) == s,
{
    if s.mode == Mode::List {
        lemma_press_down(s, n, n);
        lemma_press_up(s, n, n);
        vstd::arithmetic::div_mod::lemma_mod_add_multiples_vanish(s.selected, n as int);
        vstd::arithmetic::div_mod::lemma_mod_sub_multiples_vanish(s.selected, n as int);
        vstd::arithmetic::div_mod::lemma_small_mod(s.selected as nat, n);
    } else {
        lemma_press_ignored(s, Key::Down, n, n);
        lemma_press_ignored(s, Key::Up, n, n);
    }
}

proof fn lemma_press_ignored(s: Session, k: Key, n: nat, t: nat)
    requires
        after_key(s, k, n) == s,
    ensures
        press(s, k, n, t) == s,
    decreases t,
{
    if t > 0 {
        lemma_press_ignored(s, k, n, (t - 1) as nat);
    }
}

/// Typing the characters of `typed` after entering search mode, then
/// `Escape`, leaves list mode with an empty search buffer.
pub proof fn lemma_search_then_escape(s: Session, typed: Seq<char>, n: nat)
    ensures
        after_key(type_keys(after_key(s, Key::Char('s'), n), typed, n), Key::Esc, n).mode == Mode::List,
        after_key(type_keys(after_key(s, Key::Char('s'), n), typed, n), Key::Esc, n).search.len() == 0,
{
}

/// Pressing the character keys of `typed`, one after another.
pub open spec fn type_keys(s: Session, typed: Seq<char>, n: nat) -> Session
    decreases typed.len(),
{
    if typed.len() == 0 {
        s
    } else {
        type_keys(after_key(s, Key::Char(typed[0]), n), typed.drop_first(), n)
    }
}

/// `Enter` in list mode over an empty catalog starts nothing and leaves the
/// session as it was.
pub proof fn lemma_enter_on_empty_catalog(s: Session)
    requires
        s.mode == Mode::List,
    ensures
        after_key(s, Key::Enter, 0) == s,
        command_for(s, Key::Enter, 0) == CommandKind::Nothing,
{
}

} // verus!
