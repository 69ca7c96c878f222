//! The application state and the actions that change it.

use vstd::prelude::*;
use crate::backtest::engine::BacktestConfig;
use crate::backtest::result::BacktestResult;
use crate::backtest::strategies::{BuiltinStrategy, builtin_name_spec};
use crate::data::sina::StockSuggestion;
use crate::dates::{last_chrono_second, utc_now};
use crate::decimal::int_model;
use crate::keyed::KeyedMap;
use crate::market::Market;
use crate::ohlcv::{OHLCV, Quote};
use crate::period::{Period, can_extend_spec};
use crate::portfolio::Portfolio;
use crate::symbol::{Symbol, is_digit, yahoo_ticker_spec};
use crate::text::{
    from_chars, has_prefix, lowercase_text, pop_char, push_char, starts_with, str_to_lowercase,
    str_to_uppercase, to_chars, trim, trim_seq, uppercase_text,
};
use crate::tui::i18n::{Language, Strings, en_table, zh_table};

verus! {

/// Which provider serves price history (quotes always come from Sina).
#[derive(Debug, Clone, Copy, PartialEq, Eq, Structural)]
pub enum DataSourceKind {
    Sina,
    AkShare,
    Zhitu,
}

impl Default for DataSourceKind {
    /// Sina.
    fn default() -> (r: DataSourceKind)
        ensures
            r == DataSourceKind::Sina,
    {
        DataSourceKind::Sina
    }
}

/// The label of a data source in the settings screen.
pub open spec fn source_label_spec(k: DataSourceKind) -> Seq<char> {
    match k {
        DataSourceKind::Sina => "新浪 (Sina)"@,
        DataSourceKind::AkShare => "AkShare (AKTools HTTP)"@,
        DataSourceKind::Zhitu => "ZhituAPI"@,
    }
}

impl DataSourceKind {
    /// The label shown in the settings screen.
    pub fn label(&self) -> (r: &'static str)
        ensures
            r@ == source_label_spec(*self),
    {
        match self {
            DataSourceKind::Sina => "新浪 (Sina)",
            DataSourceKind::AkShare => "AkShare (AKTools HTTP)",
            DataSourceKind::Zhitu => "ZhituAPI",
        }
    }
}

/// The settings screen being edited.
#[derive(Debug)]
pub struct SettingsState {
    pub provider: DataSourceKind,
    /// AKTools server URL, e.g. "http://127.0.0.1:8080".
    pub akshare_url: String,
    pub language: Language,
    /// The field under the cursor: 0 = provider, 1 = URL, 2 = language.
    pub focused_field: usize,
    /// Whether the URL field is being edited.
    pub editing_url: bool,
}

impl Clone for SettingsState {
    fn clone(&self) -> (r: Self)
        ensures
            r == *self,
    {
        SettingsState {
            provider: self.provider,
            akshare_url: self.akshare_url.clone(),
            language: self.language,
            focused_field: self.focused_field,
            editing_url: self.editing_url,
        }
    }
}

/// The cursor moved up one field, if it can; moving stops URL editing.
pub open spec fn settings_up(s: SettingsState) -> SettingsState {
    if s.focused_field > 0 {
        SettingsState { focused_field: (s.focused_field - 1) as usize, editing_url: false, ..s }
    } else {
        s
    }
}

/// The cursor moved down one field, if it can; moving stops URL editing.
pub open spec fn settings_down(s: SettingsState) -> SettingsState {
    if s.focused_field + 1 < 3 {
        SettingsState { focused_field: (s.focused_field + 1) as usize, editing_url: false, ..s }
    } else {
        s
    }
}

impl SettingsState {
    /// The settings screen on the provider field, not editing.
    pub fn new(provider: DataSourceKind, akshare_url: String, language: Language) -> (r: SettingsState)
        ensures
            r == (SettingsState { provider, akshare_url, language, focused_field: 0, editing_url: false }),
    {
        SettingsState { provider, akshare_url, language, focused_field: 0, editing_url: false }
    }

    /// Number of fields: provider, URL and language.
    pub fn field_count() -> (r: usize)
        ensures
            r == 3,
    {
        3
    }

    /// Moves the cursor up one field, if it can.
    pub fn move_up(&mut self)
        ensures
            *final(self) == settings_up(*old(self)),
    {
        if self.focused_field > 0 {
            self.focused_field = self.focused_field - 1;
            self.editing_url = false;
        }
    }

    /// Moves the cursor down one field, if it can.
    pub fn move_down(&mut self)
        ensures
            *final(self) == settings_down(*old(self)),
    {
        if self.focused_field < 2 {
            self.focused_field = self.focused_field + 1;
            self.editing_url = false;
        }
    }
}

/// The panel of the main screen that has the focus.
#[derive(Debug, Clone, Copy, PartialEq, Eq, Structural)]
pub enum FocusedPanel {
    Watchlist,
    Portfolio,
}

impl Default for FocusedPanel {
    /// The watchlist.
    fn default() -> (r: FocusedPanel)
        ensures
            r == FocusedPanel::Watchlist,
    {
        FocusedPanel::Watchlist
    }
}

/// The other panel.
pub open spec fn panel_next(p: FocusedPanel) -> FocusedPanel {
    match p {
        FocusedPanel::Watchlist => FocusedPanel::Portfolio,
        FocusedPanel::Portfolio => FocusedPanel::Watchlist,
    }
}

impl FocusedPanel {
    /// The other panel (focus cycles between the two).
    pub fn next(&self) -> (r: FocusedPanel)
        ensures
            r == panel_next(*self),
    {
        match self {
            FocusedPanel::Watchlist => FocusedPanel::Portfolio,
            FocusedPanel::Portfolio => FocusedPanel::Watchlist,
        }
    }
}

/// The K-line chart screen.
#[derive(Debug)]
pub struct ChartState {
    pub symbol: Symbol,
    pub period: Period,
    pub data: Vec<OHLCV>,
    pub cursor: usize,
    /// Width of one candle in terminal columns.
    pub bar_width: u16,
    pub ma_periods: Vec<usize>,
    pub loading: bool,
    /// Error of the latest fetch, shown until new data arrives.
    pub error: Option<String>,
    /// The pending fetch loads more history: the cursor then goes to the
    /// oldest bar instead of the newest.
    pub is_load_more: bool,
    /// History has been extended once; the next fetch uses the extended range.
    pub history_extended: bool,
}

/// A chart just opened on `symbol` and `period`: loading, empty, cursor at
/// 0, candles 3 columns wide, moving averages of 5, 10 and 20 bars.
pub open spec fn fresh_chart(cs: ChartState, symbol: Symbol, period: Period) -> bool {
    &&& cs.symbol == symbol
    &&& cs.period == period
    &&& cs.data@.len() == 0
    &&& cs.cursor == 0
    &&& cs.bar_width == 3
    &&& cs.ma_periods@ == seq![5usize, 10, 20]
    &&& cs.loading
    &&& cs.error is None
    &&& !cs.is_load_more
    &&& !cs.history_extended
}

impl ChartState {
    /// A chart of `symbol` over `period`, waiting for its data.
    pub fn new(symbol: Symbol, period: Period) -> (r: ChartState)
        ensures
            fresh_chart(r, symbol, period),
    {
        ChartState {
            symbol,
            period,
            data: Vec::new(),
            cursor: 0,
            bar_width: 3,
            ma_periods: vec![5, 10, 20],
            loading: true,
            error: None,
            is_load_more: false,
            history_extended: false,
        }
    }

    /// The bar under the cursor, if the cursor is within the data.
    pub fn current_bar(&self) -> (r: Option<&OHLCV>)
        ensures
            self.cursor < self.data@.len() ==> r == Some(&self.data@[self.cursor as int]),
            self.cursor >= self.data@.len() ==> r is None,
    {
        if self.cursor < self.data.len() {
            Some(&self.data[self.cursor])
        } else {
            None
        }
    }
}

/// Progress of a backtest.
#[derive(Debug)]
pub enum BacktestStatus {
    Idle,
    Running,
    Done,
    Error(String),
}

/// The backtest screen.
#[derive(Debug)]
pub struct BacktestState {
    pub symbol: Symbol,
    pub strategy_idx: usize,
    pub config: BacktestConfig,
    pub result: Option<BacktestResult>,
    pub trade_scroll: usize,
    pub status: BacktestStatus,
}

/// A backtest screen just opened on `symbol`: the first strategy, the
/// default settings for the year up to today, no result, idle.
pub open spec fn fresh_backtest(bs: BacktestState, symbol: Symbol) -> bool {
    &&& bs.symbol == symbol
    &&& bs.strategy_idx == 0
    &&& bs.config.initial_cash@ == int_model(100000)
    &&& bs.config.commission_bps@ == int_model(5)
    &&& bs.config.slippage_bps@ == int_model(3)
    &&& bs.config.end_date - bs.config.start_date == 365
    &&& bs.result is None
    &&& bs.trade_scroll == 0
    &&& bs.status is Idle
}

/// The built-in strategy at a menu index, the last one for an index past
/// the end.
pub open spec fn strategy_at(idx: int) -> BuiltinStrategy {
    if idx == 0 {
        BuiltinStrategy::MaCross { fast: 5, slow: 20 }
    } else if idx == 1 {
        BuiltinStrategy::Rsi { period: 14 }
    } else {
        BuiltinStrategy::Bollinger { period: 20 }
    }
}

impl BacktestState {
    /// The backtest screen for `symbol` with today's default settings.
    pub fn new(symbol: Symbol) -> (r: BacktestState)
        ensures
            fresh_backtest(r, symbol),
    {
        BacktestState {
            symbol,
            strategy_idx: 0,
            config: BacktestConfig::default(),
            result: None,
            trade_scroll: 0,
            status: BacktestStatus::Idle,
        }
    }

    /// Number of built-in strategies.
    pub fn strategy_count() -> (r: usize)
        ensures
            r == 3,
    {
        BuiltinStrategy::all().len()
    }

    /// Name of the selected strategy (the last one when the index is past
    /// the end).
    pub fn strategy_name(&self) -> (r: &'static str)
        ensures
            r@ == builtin_name_spec(strategy_at(self.strategy_idx as int)),
    {
        let all = BuiltinStrategy::all();
        let idx = if self.strategy_idx < all.len() - 1 {
            self.strategy_idx
        } else {
            all.len() - 1
        };
        all[idx].name()
    }
}

/// What is on screen.
#[derive(Debug)]
pub enum AppScreen {
    Main,
    Chart(ChartState),
    Backtest(BacktestState),
    Settings(SettingsState),
}

impl Default for AppScreen {
    /// The main screen.
    fn default() -> (r: AppScreen)
        ensures
            r is Main,
    {
        AppScreen::Main
    }
}

/// Everything an action can change.
pub enum AppAction {
    Quit,
    NextPanel,
    MoveUp,
    MoveDown,
    StartSearch,
    UpdateSearchInput(char),
    BackspaceSearch,
    CancelSearch,
    StartAdd,
    UpdateAddInput(char),
    BackspaceAdd,
    CancelAdd,
    ConfirmAdd,
    SearchResultsUpdated(u64, Vec<StockSuggestion>),
    SearchSelectNext,
    SearchSelectPrev,
    ConfirmSearchSelection,
    DeleteSelected,
    Refresh,
    QuotesUpdated(Vec<Quote>),
    /// Names found for watchlist symbols that had none: `(code, name)` pairs.
    NamesResolved(Vec<(String, String)>),
    StatusMessage(String),
    EnterChart(Symbol),
    ExitChart,
    ChartDataLoaded(Vec<OHLCV>),
    /// The price-history fetch failed with this message.
    ChartFetchFailed(String),
    ChartMoveCursor(i32),
    ChartZoom(bool),
    ChartChangePeriod(Period),
    ChartLoadMoreHistory,
    StartBacktest(Symbol),
    RunBacktest,
    BacktestComplete(BacktestResult),
    BacktestFailed(String),
    BacktestNextStrategy,
    BacktestPrevStrategy,
    BacktestScrollUp,
    BacktestScrollDown,
    ExitBacktest,
    OpenSettings,
    ExitSettings,
    SettingsNavUp,
    SettingsNavDown,
    SettingsSelectProvider(DataSourceKind),
    SettingsEditUrlChar(char),
    SettingsEditUrlBackspace,
    SettingsToggleUrlEdit,
    SettingsSaved,
    RequestQuit,
    CancelQuit,
    ToggleQuitButton,
    SettingsSelectLanguage(Language),
}

/// The whole application state.
pub struct State {
    pub watchlist: Vec<Symbol>,
    /// Latest quote per symbol code.
    pub quotes: KeyedMap<Quote>,
    pub portfolio: Portfolio,
    pub selected_watchlist: usize,
    pub selected_portfolio: usize,
    pub focused_panel: FocusedPanel,
    /// When quotes last arrived, in seconds since the Unix epoch.
    pub last_updated: Option<i64>,
    pub status_message: Option<String>,
    pub is_search_active: bool,
    pub search_input: String,
    pub is_add_active: bool,
    pub add_input: String,
    pub search_results: Vec<StockSuggestion>,
    pub search_selected: usize,
    /// Counts edits of the add input, so that late search results for an
    /// older input are dropped.
    pub search_generation: u64,
    pub should_quit: bool,
    pub screen: AppScreen,
    pub data_source: DataSourceKind,
    pub akshare_url: String,
    pub language: Language,
    pub confirm_quit: bool,
    /// Which button of the quit dialog has the focus: `false` = confirm,
    /// `true` = cancel.
    pub confirm_quit_focused: bool,
}

/// A session just started: no quotes, selections at the top, watchlist
/// focused, no search or add in progress, main screen, no dialog.
pub open spec fn fresh_session(s: State) -> bool {
    &&& s.quotes@ == Map::<Seq<char>, Quote>::empty()
    &&& s.selected_watchlist == 0
    &&& s.selected_portfolio == 0
    &&& s.focused_panel == FocusedPanel::Watchlist
    &&& s.last_updated is None
    &&& s.status_message is None
    &&& !s.is_search_active
    &&& s.search_input@.len() == 0
    &&& !s.is_add_active
    &&& s.add_input@.len() == 0
    &&& s.search_results@.len() == 0
    &&& s.search_selected == 0
    &&& s.search_generation == 0
    &&& !s.should_quit
    &&& s.screen is Main
    &&& !s.confirm_quit
    &&& !s.confirm_quit_focused
}

/// The initial state: a fresh session with nothing watched or held, Zhitu
/// as the data source, AKTools at its local default URL, Chinese.
pub open spec fn initial_state(s: State) -> bool {
    &&& fresh_session(s)
    &&& s.watchlist@.len() == 0
    &&& s.portfolio.positions@.len() == 0
    &&& s.data_source == DataSourceKind::Zhitu
    &&& s.akshare_url@ == "http://127.0.0.1:8080"@
    &&& s.language == Language::Zh
}

impl Default for State {
    fn default() -> (r: State)
        ensures
            initial_state(r),
    {
        State {
            watchlist: Vec::new(),
            quotes: KeyedMap::new(),
            portfolio: Portfolio::default(),
            selected_watchlist: 0,
            selected_portfolio: 0,
            focused_panel: FocusedPanel::default(),
            last_updated: None,
            status_message: None,
            is_search_active: false,
            search_input: String::new(),
            is_add_active: false,
            add_input: String::new(),
            search_results: Vec::new(),
            search_selected: 0,
            search_generation: 0,
            should_quit: false,
            screen: AppScreen::Main,
            data_source: DataSourceKind::Zhitu,
            akshare_url: "http://127.0.0.1:8080".to_owned(),
            language: Language::default(),
            confirm_quit: false,
            confirm_quit_focused: false,
        }
    }
}

/// All characters are ASCII digits.
pub open spec fn all_digits(s: Seq<char>) -> bool {
    forall|i: int| 0 <= i < s.len() ==> is_digit(#[trigger] s[i])
}

/// The code and market of a typed ticker: trimmed; `None` when empty; a
/// "sh"/"sz" prefix (any case) gives an A-share with the code lower-cased;
/// all digits gives an A-share with the code as typed; anything else a US
/// stock with the code upper-cased.
pub open spec fn parse_add_spec(input: Seq<char>) -> Option<(Seq<char>, Market)> {
    let t = trim_seq(input);
    if t.len() == 0 {
        None
    } else {
        let lower = lowercase_text(t);
        if has_prefix(lower, seq!['s', 'h']) || has_prefix(lower, seq!['s', 'z']) {
            Some((lower, Market::AShare))
        } else if all_digits(t) {
            Some((t, Market::AShare))
        } else {
            Some((uppercase_text(t), Market::USStock))
        }
    }
}

/// Infers the market of a typed ticker and builds its symbol, as
/// [`parse_add_spec`] says; `None` for blank input.
pub fn parse_add_symbol(input: &str) -> (r: Option<Symbol>)
    ensures
        match parse_add_spec(input@) {
            None => r is None,
            Some((code, market)) => r matches Some(s) && s.code@ == code && s.market == market && s.name is None,
        },
{
    let chars = to_chars(input);
    let t = trim(&chars);
    if t.len() == 0 {
        return None;
    }
    let trimmed = from_chars(&t);
    let lower = str_to_lowercase(trimmed.as_str());
    let lower_chars = to_chars(lower.as_str());
    if starts_with(&lower_chars, &['s', 'h']) || starts_with(&lower_chars, &['s', 'z']) {
        return Some(Symbol::new(lower.as_str(), Market::AShare));
    }
    let mut i: usize = 0;
    let mut digits = true;
    while i < t.len()
        invariant
            i <= t@.len(),
            digits == (forall|j: int| 0 <= j < i ==> is_digit(#[trigger] t@[j])),
        decreases t@.len() - i,
    {
        if !(t[i] >= '0' && t[i] <= '9') {
            digits = false;
        }
        i = i + 1;
    }
    if digits {
        Some(Symbol::new(trimmed.as_str(), Market::AShare))
    } else {
        let upper = str_to_uppercase(trimmed.as_str());
        Some(Symbol::new(upper.as_str(), Market::USStock))
    }
}

/// The watchlist already holds a symbol of `market` with the same Yahoo
/// ticker as `code`.
pub open spec fn has_ticker(wl: Seq<Symbol>, code: Seq<char>, market: Market) -> bool {
    exists|i: int|
        0 <= i < wl.len() && #[trigger] wl[i].market == market && yahoo_ticker_spec(wl[i].code@, wl[i].market)
            == yahoo_ticker_spec(code, market)
}

/// `new_wl` is the watchlist after adding the typed ticker `input`: blank
/// input and tickers already present (same market and Yahoo ticker) leave
/// it unchanged; otherwise the new symbol, without a name, goes last.
pub open spec fn added_typed(old_wl: Seq<Symbol>, new_wl: Seq<Symbol>, input: Seq<char>) -> bool {
    match parse_add_spec(input) {
        None => new_wl == old_wl,
        Some((code, market)) => if has_ticker(old_wl, code, market) {
            new_wl == old_wl
        } else {
            &&& new_wl.len() == old_wl.len() + 1
            &&& new_wl.drop_last() == old_wl
            &&& new_wl.last().code@ == code
            &&& new_wl.last().market == market
            &&& new_wl.last().name is None
        },
    }
}

/// The watchlist holds a symbol with this exact code.
pub open spec fn has_code(wl: Seq<Symbol>, code: Seq<char>) -> bool {
    exists|i: int| 0 <= i < wl.len() && (#[trigger] wl[i]).code@ == code
}

/// `new_wl` is the watchlist after picking the suggestion `s`: an A-share
/// named after it goes last unless its code is already there.
pub open spec fn added_suggestion(old_wl: Seq<Symbol>, new_wl: Seq<Symbol>, s: StockSuggestion) -> bool {
    if has_code(old_wl, s.code@) {
        new_wl == old_wl
    } else {
        &&& new_wl.len() == old_wl.len() + 1
        &&& new_wl.drop_last() == old_wl
        &&& new_wl.last().code@ == s.code@
        &&& new_wl.last().market == Market::AShare
        &&& new_wl.last().name matches Some(n) && n@ == s.name@
    }
}

/// Index of the first symbol with this code.
pub open spec fn first_code_index(wl: Seq<Symbol>, code: Seq<char>) -> Option<int>
    decreases wl.len(),
{
    if wl.len() == 0 {
        None
    } else if wl[0].code@ == code {
        Some(0)
    } else {
        match first_code_index(wl.subrange(1, wl.len() as int), code) {
            Some(i) => Some(i + 1),
            None => None,
        }
    }
}

/// A quote with a non-empty name names the first watchlist symbol with its
/// code.
pub open spec fn name_from_quote(wl: Seq<Symbol>, q: Quote) -> Seq<Symbol> {
    match q.name {
        Some(nm) => if nm@.len() > 0 {
            match first_code_index(wl, q.symbol.code@) {
                Some(i) => wl.update(i, Symbol { name: Some(nm), ..wl[i] }),
                None => wl,
            }
        } else {
            wl
        },
        None => wl,
    }
}

/// The watchlist after taking names from the quotes, in order.
pub open spec fn names_from_quotes(wl: Seq<Symbol>, qs: Seq<Quote>) -> Seq<Symbol>
    decreases qs.len(),
{
    if qs.len() == 0 {
        wl
    } else {
        name_from_quote(names_from_quotes(wl, qs.drop_last()), qs.last())
    }
}

/// The quote map after storing the quotes under their codes, in order.
pub open spec fn store_quotes(m: Map<Seq<char>, Quote>, qs: Seq<Quote>) -> Map<Seq<char>, Quote>
    decreases qs.len(),
{
    if qs.len() == 0 {
        m
    } else {
        store_quotes(m, qs.drop_last()).insert(qs.last().symbol.code@, qs.last())
    }
}

/// A resolved `(code, name)` pair with a non-empty name names the first
/// symbol with that code, when it has no name yet.
pub open spec fn name_from_pair(wl: Seq<Symbol>, p: (String, String)) -> Seq<Symbol> {
    if p.1@.len() == 0 {
        wl
    } else {
        match first_code_index(wl, p.0@) {
            Some(i) => if wl[i].name is None {
                wl.update(i, Symbol { name: Some(p.1), ..wl[i] })
            } else {
                wl
            },
            None => wl,
        }
    }
}

/// The watchlist after taking the resolved names, in order.
pub open spec fn names_from_pairs(wl: Seq<Symbol>, ps: Seq<(String, String)>) -> Seq<Symbol>
    decreases ps.len(),
{
    if ps.len() == 0 {
        wl
    } else {
        name_from_pair(names_from_pairs(wl, ps.drop_last()), ps.last())
    }
}

/// The next index in a list of `len`, wrapping to 0 past the end.
pub open spec fn wrap_next(cur: int, len: int) -> int {
    if len > 0 {
        (cur + 1) % len
    } else {
        cur
    }
}

/// The previous index in a list of `len`, wrapping to the end before 0.
pub open spec fn wrap_prev(cur: int, len: int) -> int {
    if len > 0 {
        if cur == 0 {
            len - 1
        } else {
            cur - 1
        }
    } else {
        cur
    }
}

/// `g + 1`, wrapping to 0 after the largest value.
pub open spec fn wrapping_inc(g: u64) -> u64 {
    if g == u64::MAX {
        0
    } else {
        (g + 1) as u64
    }
}

/// The text with its last character removed, if any.
pub open spec fn drop_last_char(s: Seq<char>) -> Seq<char> {
    if s.len() > 0 {
        s.drop_last()
    } else {
        s
    }
}

/// `v` clamped to `[lo, hi]`.
pub open spec fn clamp(v: int, lo: int, hi: int) -> int {
    if v < lo {
        lo
    } else if v > hi {
        hi
    } else {
        v
    }
}

/// Candle width after a zoom step: in by one up to 8, out by one down to 2.
pub open spec fn zoom_width(w: u16, zoom_in: bool) -> u16 {
    if zoom_in {
        if w < 8 {
            (w + 1) as u16
        } else {
            w
        }
    } else if w > 2 {
        (w - 1) as u16
    } else {
        w
    }
}

/// Inputs on which an action is defined: picking a suggestion needs the
/// selection within the results, and moving the chart cursor needs the
/// cursor and data length far from the `i64` limits.
pub open spec fn action_ok(s: State, a: AppAction) -> bool {
    match a {
        AppAction::ConfirmSearchSelection => s.is_add_active && s.search_results@.len() > 0 ==> s.search_selected
            < s.search_results@.len(),
        AppAction::ChartMoveCursor(_) => s.screen matches AppScreen::Chart(cs) ==> cs.cursor < 0x4000_0000_0000_0000
            && cs.data@.len() < 0x4000_0000_0000_0000,
        _ => true,
    }
}

/// Whether `action` may be applied to `state`: a search pick lies within
/// the results, and a chart's cursor and data stay far from `usize`'s
/// limit.
pub fn action_allowed(state: &State, action: &AppAction) -> (r: bool)
    ensures
        r == action_ok(*state, *action),
{
    match action {
        AppAction::ConfirmSearchSelection => !(state.is_add_active && state.search_results.len() > 0)
            || state.search_selected < state.search_results.len(),
        AppAction::ChartMoveCursor(_) => match &state.screen {
            AppScreen::Chart(cs) => (cs.cursor as u64) < 0x4000_0000_0000_0000u64 && (cs.data.len() as u64)
                < 0x4000_0000_0000_0000u64,
            _ => true,
        },
        _ => true,
    }
}

/// `n` is `o` with the chart screen changed as `f` relates the old chart to
/// the new one; any other screen leaves the state unchanged.
pub open spec fn on_chart(o: State, n: State, f: spec_fn(ChartState, ChartState) -> bool) -> bool {
    match o.screen {
        AppScreen::Chart(cs) => n.screen matches AppScreen::Chart(ncs) && f(cs, ncs) && n == State {
            screen: n.screen,
            ..o
        },
        _ => n == o,
    }
}

/// `n` is `o` with the backtest screen changed as `f` says; any other
/// screen leaves the state unchanged.
pub open spec fn on_backtest(o: State, n: State, f: spec_fn(BacktestState, BacktestState) -> bool) -> bool {
    match o.screen {
        AppScreen::Backtest(bs) => n.screen matches AppScreen::Backtest(nbs) && f(bs, nbs) && n == State {
            screen: n.screen,
            ..o
        },
        _ => n == o,
    }
}

/// `n` is `o` with the settings screen changed as `f` says; any other
/// screen leaves the state unchanged.
pub open spec fn on_settings(o: State, n: State, f: spec_fn(SettingsState, SettingsState) -> bool) -> bool {
    match o.screen {
        AppScreen::Settings(ss) => n.screen matches AppScreen::Settings(nss) && f(ss, nss) && n == State {
            screen: n.screen,
            ..o
        },
        _ => n == o,
    }
}

/// What each action does to the state (`o` before, `n` after).
pub open spec fn apply_spec(o: State, n: State, a: AppAction) -> bool {
    match a {
        AppAction::Quit => n == State { should_quit: true, confirm_quit: false, ..o },
        AppAction::NextPanel => n == State { focused_panel: panel_next(o.focused_panel), ..o },
        AppAction::MoveUp => match o.focused_panel {
            FocusedPanel::Watchlist => n == State {
                selected_watchlist: wrap_prev(o.selected_watchlist as int, o.watchlist@.len() as int) as usize,
                ..o
            },
            FocusedPanel::Portfolio => n == State {
                selected_portfolio: wrap_prev(o.selected_portfolio as int, o.portfolio.positions@.len() as int) as usize,
                ..o
            },
        },
        AppAction::MoveDown => match o.focused_panel {
            FocusedPanel::Watchlist => n == State {
                selected_watchlist: wrap_next(o.selected_watchlist as int, o.watchlist@.len() as int) as usize,
                ..o
            },
            FocusedPanel::Portfolio => n == State {
                selected_portfolio: wrap_next(o.selected_portfolio as int, o.portfolio.positions@.len() as int) as usize,
                ..o
            },
        },
        AppAction::StartSearch => {
            &&& n == State {
                is_add_active: false,
                add_input: n.add_input,
                is_search_active: true,
                search_input: n.search_input,
                ..o
            }
            &&& n.add_input@.len() == 0
            &&& n.search_input@.len() == 0
        },
        AppAction::UpdateSearchInput(c) => if o.is_search_active {
            n == State { search_input: n.search_input, ..o } && n.search_input@ == o.search_input@.push(c)
        } else {
            n == o
        },
        AppAction::BackspaceSearch => if o.is_search_active {
            n == State { search_input: n.search_input, ..o } && n.search_input@ == drop_last_char(o.search_input@)
        } else {
            n == o
        },
        AppAction::CancelSearch => n == State { is_search_active: false, search_input: n.search_input, ..o }
            && n.search_input@.len() == 0,
        AppAction::StartAdd => {
            &&& n == State {
                is_search_active: false,
                search_input: n.search_input,
                is_add_active: true,
                add_input: n.add_input,
                search_results: n.search_results,
                search_selected: 0,
                ..o
            }
            &&& n.search_input@.len() == 0
            &&& n.add_input@.len() == 0
            &&& n.search_results@.len() == 0
        },
        AppAction::UpdateAddInput(c) => if o.is_add_active {
            &&& n == State {
                add_input: n.add_input,
                search_generation: wrapping_inc(o.search_generation),
                ..o
            }
            &&& n.add_input@ == o.add_input@.push(c)
        } else {
            n == o
        },
        AppAction::BackspaceAdd => if o.is_add_active {
            &&& n == State {
                add_input: n.add_input,
                search_generation: wrapping_inc(o.search_generation),
                ..o
            }
            &&& n.add_input@ == drop_last_char(o.add_input@)
        } else {
            n == o
        },
        AppAction::CancelAdd => {
            &&& n == State {
                is_add_active: false,
                add_input: n.add_input,
                search_results: n.search_results,
                search_selected: 0,
                ..o
            }
            &&& n.add_input@.len() == 0
            &&& n.search_results@.len() == 0
        },
        AppAction::ConfirmAdd => if o.is_add_active {
            &&& n == State {
                is_add_active: false,
                watchlist: n.watchlist,
                add_input: n.add_input,
                search_results: n.search_results,
                search_selected: 0,
                ..o
            }
            &&& added_typed(o.watchlist@, n.watchlist@, o.add_input@)
            &&& n.add_input@.len() == 0
            &&& n.search_results@.len() == 0
        } else {
            n == o
        },
        AppAction::SearchResultsUpdated(generation, results) => if generation == o.search_generation {
            n == State { search_results: results, search_selected: 0, ..o }
        } else {
            n == o
        },
        AppAction::SearchSelectNext => n == State {
            search_selected: wrap_next(o.search_selected as int, o.search_results@.len() as int) as usize,
            ..o
        },
        AppAction::SearchSelectPrev => n == State {
            search_selected: wrap_prev(o.search_selected as int, o.search_results@.len() as int) as usize,
            ..o
        },
        AppAction::ConfirmSearchSelection => if o.is_add_active && o.search_results@.len() > 0 {
            &&& n == State {
                is_add_active: false,
                watchlist: n.watchlist,
                add_input: n.add_input,
                search_results: n.search_results,
                search_selected: 0,
                ..o
            }
            &&& added_suggestion(o.watchlist@, n.watchlist@, o.search_results@[o.search_selected as int])
            &&& n.add_input@.len() == 0
            &&& n.search_results@.len() == 0
        } else {
            n == o
        },
        AppAction::DeleteSelected => if o.focused_panel == FocusedPanel::Watchlist && o.selected_watchlist
            < o.watchlist@.len() {
            &&& n == State {
                watchlist: n.watchlist,
                quotes: n.quotes,
                selected_watchlist: if o.selected_watchlist > 0 {
                    (o.selected_watchlist - 1) as usize
                } else {
                    0
                },
                ..o
            }
            &&& n.watchlist@ == o.watchlist@.remove(o.selected_watchlist as int)
            &&& n.quotes@ == o.quotes@.remove(o.watchlist@[o.selected_watchlist as int].code@)
        } else {
            n == o
        },
        AppAction::Refresh => n == State { status_message: None, ..o },
        AppAction::QuotesUpdated(qs) => {
            &&& n == State {
                last_updated: n.last_updated,
                watchlist: n.watchlist,
                quotes: n.quotes,
                ..o
            }
            &&& (n.last_updated matches Some(t) ==> 0 <= t <= last_chrono_second())
            &&& n.watchlist@ == names_from_quotes(o.watchlist@, qs@)
            &&& n.quotes@ == store_quotes(o.quotes@, qs@)
        },
        AppAction::NamesResolved(ps) => n == State { watchlist: n.watchlist, ..o } && n.watchlist@
            == names_from_pairs(o.watchlist@, ps@),
        AppAction::StatusMessage(msg) => n == State { status_message: Some(msg), ..o },
        AppAction::EnterChart(sym) => n == State { screen: n.screen, ..o } && (n.screen matches AppScreen::Chart(
            cs,
        ) && fresh_chart(cs, sym, Period::Month1)),
        AppAction::ExitChart => n == State { screen: AppScreen::Main, ..o },
        AppAction::ChartDataLoaded(data) => on_chart(
            o,
            n,
            |cs: ChartState, ncs: ChartState|
                ncs == ChartState {
                    data,
                    cursor: if cs.is_load_more {
                        0
                    } else if data@.len() > 0 {
                        (data@.len() - 1) as usize
                    } else {
                        0
                    },
                    loading: false,
                    is_load_more: false,
                    error: None,
                    ..cs
                },
        ),
        AppAction::ChartFetchFailed(msg) => on_chart(
            o,
            n,
            |cs: ChartState, ncs: ChartState| ncs == ChartState { loading: false, error: Some(msg), ..cs },
        ),
        AppAction::ChartMoveCursor(delta) => on_chart(
            o,
            n,
            |cs: ChartState, ncs: ChartState|
                ncs == ChartState {
                    cursor: if cs.data@.len() > 0 {
                        clamp(cs.cursor + delta, 0, cs.data@.len() - 1) as usize
                    } else {
                        cs.cursor
                    },
                    ..cs
                },
        ),
        AppAction::ChartZoom(zoom_in) => on_chart(
            o,
            n,
            |cs: ChartState, ncs: ChartState| ncs == ChartState { bar_width: zoom_width(cs.bar_width, zoom_in), ..cs },
        ),
        AppAction::ChartChangePeriod(period) => on_chart(
            o,
            n,
            |cs: ChartState, ncs: ChartState|
                ncs == ChartState {
                    period,
                    loading: true,
                    data: ncs.data,
                    error: None,
                    history_extended: false,
                    ..cs
                } && ncs.data@.len() == 0,
        ),
        AppAction::ChartLoadMoreHistory => on_chart(
            o,
            n,
            |cs: ChartState, ncs: ChartState|
                if can_extend_spec(cs.period) && !cs.history_extended {
                    ncs == ChartState {
                        history_extended: true,
                        loading: true,
                        data: ncs.data,
                        error: None,
                        cursor: 0,
                        is_load_more: true,
                        ..cs
                    } && ncs.data@.len() == 0
                } else {
                    ncs == cs
                },
        ),
        AppAction::StartBacktest(sym) => n == State { screen: n.screen, ..o } && (n.screen matches AppScreen::Backtest(
            bs,
        ) && fresh_backtest(bs, sym)),
        AppAction::RunBacktest => on_backtest(
            o,
            n,
            |bs: BacktestState, nbs: BacktestState|
                nbs == BacktestState { status: BacktestStatus::Running, result: None, ..bs },
        ),
        AppAction::BacktestComplete(result) => on_backtest(
            o,
            n,
            |bs: BacktestState, nbs: BacktestState|
                nbs == BacktestState {
                    result: Some(result),
                    status: BacktestStatus::Done,
                    trade_scroll: 0,
                    ..bs
                },
        ),
        AppAction::BacktestFailed(msg) => on_backtest(
            o,
            n,
            |bs: BacktestState, nbs: BacktestState| nbs == BacktestState { status: BacktestStatus::Error(msg), ..bs },
        ),
        AppAction::BacktestNextStrategy => on_backtest(
            o,
            n,
            |bs: BacktestState, nbs: BacktestState|
                nbs == BacktestState { strategy_idx: ((bs.strategy_idx + 1) % 3) as usize, ..bs },
        ),
        AppAction::BacktestPrevStrategy => on_backtest(
            o,
            n,
            |bs: BacktestState, nbs: BacktestState|
                nbs == BacktestState { strategy_idx: ((bs.strategy_idx + 2) % 3) as usize, ..bs },
        ),
        AppAction::BacktestScrollUp => on_backtest(
            o,
            n,
            |bs: BacktestState, nbs: BacktestState|
                nbs == BacktestState {
                    trade_scroll: if bs.trade_scroll > 0 {
                        (bs.trade_scroll - 1) as usize
                    } else {
                        0
                    },
                    ..bs
                },
        ),
        AppAction::BacktestScrollDown => on_backtest(
            o,
            n,
            |bs: BacktestState, nbs: BacktestState|
                match bs.result {
                    Some(r) => {
                        let max = if r.trades@.len() > 0 {
                            r.trades@.len() - 1
                        } else {
                            0
                        };
                        nbs == BacktestState {
                            trade_scroll: if bs.trade_scroll + 1 < max {
                                (bs.trade_scroll + 1) as usize
                            } else {
                                max as usize
                            },
                            ..bs
                        }
                    },
                    None => nbs == bs,
                },
        ),
        AppAction::ExitBacktest => n == State { screen: AppScreen::Main, ..o },
        AppAction::OpenSettings => n == State {
            screen: AppScreen::Settings(
                SettingsState {
                    provider: o.data_source,
                    akshare_url: o.akshare_url,
                    language: o.language,
                    focused_field: 0,
                    editing_url: false,
                },
            ),
            ..o
        },
        AppAction::ExitSettings => if o.screen is Settings {
            n == State { screen: AppScreen::Main, ..o }
        } else {
            n == o
        },
        AppAction::SettingsNavUp => on_settings(o, n, |ss: SettingsState, nss: SettingsState| nss == settings_up(ss)),
        AppAction::SettingsNavDown => on_settings(o, n, |ss: SettingsState, nss: SettingsState| nss == settings_down(ss)),
        AppAction::SettingsSelectProvider(kind) => on_settings(
            o,
            n,
            |ss: SettingsState, nss: SettingsState| nss == SettingsState { provider: kind, ..ss },
        ),
        AppAction::SettingsEditUrlChar(c) => on_settings(
            o,
            n,
            |ss: SettingsState, nss: SettingsState|
                if ss.editing_url {
                    nss == SettingsState { akshare_url: nss.akshare_url, ..ss } && nss.akshare_url@ == ss.akshare_url@.push(c)
                } else {
                    nss == ss
                },
        ),
        AppAction::SettingsEditUrlBackspace => on_settings(
            o,
            n,
            |ss: SettingsState, nss: SettingsState|
                if ss.editing_url {
                    nss == SettingsState { akshare_url: nss.akshare_url, ..ss } && nss.akshare_url@ == drop_last_char(
                        ss.akshare_url@,
                    )
                } else {
                    nss == ss
                },
        ),
        AppAction::SettingsToggleUrlEdit => on_settings(
            o,
            n,
            |ss: SettingsState, nss: SettingsState|
                if ss.focused_field == 1 {
                    nss == SettingsState { editing_url: !ss.editing_url, ..ss }
                } else {
                    nss == ss
                },
        ),
        AppAction::SettingsSaved => match o.screen {
            AppScreen::Settings(ss) => n == State {
                data_source: ss.provider,
                akshare_url: ss.akshare_url,
                language: ss.language,
                screen: AppScreen::Main,
                ..o
            },
            _ => n == o,
        },
        AppAction::RequestQuit => n == State { confirm_quit: true, confirm_quit_focused: false, ..o },
        AppAction::CancelQuit => n == State { confirm_quit: false, confirm_quit_focused: false, ..o },
        AppAction::ToggleQuitButton => n == State { confirm_quit_focused: !o.confirm_quit_focused, ..o },
        AppAction::SettingsSelectLanguage(lang) => on_settings(
            o,
            n,
            |ss: SettingsState, nss: SettingsState| nss == SettingsState { language: lang, ..ss },
        ),
    }
}

/// The next index of a non-empty list, wrapping.
fn next_index(cur: usize, len: usize) -> (r: usize)
    requires
        len > 0,
    ensures
        r == wrap_next(cur as int, len as int),
        r < len,
{
    proof {
        vstd::arithmetic::div_mod::lemma_add_mod_noop_right(1, cur as int, len as int);
    }
    (cur % len + 1) % len
}

/// The previous index of a non-empty list, wrapping.
fn prev_index(cur: usize, len: usize) -> (r: usize)
    requires
        len > 0,
    ensures
        r == wrap_prev(cur as int, len as int),
{
    if cur == 0 {
        len - 1
    } else {
        cur - 1
    }
}

impl State {
    /// Applies one action to the state, as [`apply_spec`] says.
    pub fn apply(&mut self, action: AppAction)
        requires
            action_ok(*old(self), action),
        ensures
            apply_spec(*old(self), *final(self), action),
    {
        match action {
            AppAction::Quit | AppAction::NextPanel | AppAction::MoveUp | AppAction::MoveDown
            | AppAction::RequestQuit | AppAction::CancelQuit | AppAction::ToggleQuitButton
            | AppAction::Refresh | AppAction::StatusMessage(..) => {
                self.apply_basic(action);
            },
            AppAction::StartSearch | AppAction::UpdateSearchInput(..) | AppAction::BackspaceSearch
            | AppAction::CancelSearch | AppAction::SearchResultsUpdated(..)
            | AppAction::SearchSelectNext | AppAction::SearchSelectPrev => {
                self.apply_search(action);
            },
            AppAction::StartAdd | AppAction::UpdateAddInput(..) | AppAction::BackspaceAdd
            | AppAction::CancelAdd | AppAction::ConfirmAdd | AppAction::ConfirmSearchSelection => {
                self.apply_add(action);
            },
            AppAction::DeleteSelected | AppAction::QuotesUpdated(..) | AppAction::NamesResolved(..) => {
                self.apply_data(action);
            },
            AppAction::EnterChart(..) | AppAction::ExitChart | AppAction::StartBacktest(..)
            | AppAction::ExitBacktest | AppAction::OpenSettings | AppAction::ExitSettings
            | AppAction::SettingsSaved => {
                self.apply_screens(action);
            },
            AppAction::ChartDataLoaded(_) | AppAction::ChartFetchFailed(_) | AppAction::ChartMoveCursor(_)
            | AppAction::ChartZoom(_) | AppAction::ChartChangePeriod(_) | AppAction::ChartLoadMoreHistory => {
                self.apply_chart(action);
            },
            AppAction::RunBacktest | AppAction::BacktestComplete(_) | AppAction::BacktestFailed(_)
            | AppAction::BacktestNextStrategy | AppAction::BacktestPrevStrategy | AppAction::BacktestScrollUp
            | AppAction::BacktestScrollDown => {
                self.apply_backtest(action);
            },
            AppAction::SettingsNavUp | AppAction::SettingsNavDown | AppAction::SettingsSelectProvider(_)
            | AppAction::SettingsEditUrlChar(_) | AppAction::SettingsEditUrlBackspace
            | AppAction::SettingsToggleUrlEdit | AppAction::SettingsSelectLanguage(_) => {
                self.apply_settings(action);
            },
        }
    }

    /// The quit, focus, selection and status actions.
    fn apply_basic(&mut self, action: AppAction)
        requires
            (action is Quit || action is NextPanel || action is MoveUp || action is MoveDown
                || action is RequestQuit || action is CancelQuit || action is ToggleQuitButton
                || action is Refresh || action is StatusMessage),
        ensures
            apply_spec(*old(self), *final(self), action),
    {
        match action {
        AppAction::Quit => {
            self.should_quit = true;
            self.confirm_quit = false;
        },
        AppAction::NextPanel => {
            self.focused_panel = self.focused_panel.next();
        },
        AppAction::MoveUp => {
            match self.focused_panel {
                FocusedPanel::Watchlist => {
                    let len = self.watchlist.len();
                    if len > 0 {
                        self.selected_watchlist = prev_index(self.selected_watchlist, len);
                    }
                },
                FocusedPanel::Portfolio => {
                    let len = self.portfolio.positions.len();
                    if len > 0 {
                        self.selected_portfolio = prev_index(self.selected_portfolio, len);
                    }
                },
            }
        },
        AppAction::MoveDown => {
            match self.focused_panel {
                FocusedPanel::Watchlist => {
                    let len = self.watchlist.len();
                    if len > 0 {
                        self.selected_watchlist = next_index(self.selected_watchlist, len);
                    }
                },
                FocusedPanel::Portfolio => {
                    let len = self.portfolio.positions.len();
                    if len > 0 {
                        self.selected_portfolio = next_index(self.selected_portfolio, len);
                    }
                },
            }
        },
        AppAction::RequestQuit => {
            self.confirm_quit = true;
            self.confirm_quit_focused = false;
        },
        AppAction::CancelQuit => {
            self.confirm_quit = false;
            self.confirm_quit_focused = false;
        },
        AppAction::ToggleQuitButton => {
            self.confirm_quit_focused = !self.confirm_quit_focused;
        },
        AppAction::Refresh => {
            self.status_message = None;
        },
        AppAction::StatusMessage(msg) => {
            self.status_message = Some(msg);
        },
            _ => {},
        }
    }

    /// The search actions.
    fn apply_search(&mut self, action: AppAction)
        requires
            (action is StartSearch || action is UpdateSearchInput || action is BackspaceSearch
                || action is CancelSearch || action is SearchResultsUpdated
                || action is SearchSelectNext || action is SearchSelectPrev),
        ensures
            apply_spec(*old(self), *final(self), action),
    {
        match action {
        AppAction::StartSearch => {
            self.is_add_active = false;
            self.add_input = String::new();
            self.is_search_active = true;
            self.search_input = String::new();
        },
        AppAction::UpdateSearchInput(c) => {
            if self.is_search_active {
                push_char(&mut self.search_input, c);
            }
        },
        AppAction::BackspaceSearch => {
            if self.is_search_active {
                pop_char(&mut self.search_input);
            }
        },
        AppAction::CancelSearch => {
            self.is_search_active = false;
            self.search_input = String::new();
        },
        AppAction::SearchResultsUpdated(generation, results) => {
            if generation == self.search_generation {
                self.search_results = results;
                self.search_selected = 0;
            }
        },
        AppAction::SearchSelectNext => {
            let len = self.search_results.len();
            if len > 0 {
                self.search_selected = next_index(self.search_selected, len);
            }
        },
        AppAction::SearchSelectPrev => {
            let len = self.search_results.len();
            if len > 0 {
                self.search_selected = prev_index(self.search_selected, len);
            }
        },
            _ => {},
        }
    }

    /// The add-to-watchlist actions.
    fn apply_add(&mut self, action: AppAction)
        requires
            action_ok(*old(self), action),
            (action is StartAdd || action is UpdateAddInput || action is BackspaceAdd
                || action is CancelAdd || action is ConfirmAdd || action is ConfirmSearchSelection),
        ensures
            apply_spec(*old(self), *final(self), action),
    {
        match action {
        AppAction::StartAdd => {
            self.is_search_active = false;
            self.search_input = String::new();
            self.is_add_active = true;
            self.add_input = String::new();
            self.search_results = Vec::new();
            self.search_selected = 0;
        },
        AppAction::UpdateAddInput(c) => {
            if self.is_add_active {
                push_char(&mut self.add_input, c);
                self.search_generation = self.search_generation.wrapping_add(1);
            }
        },
        AppAction::BackspaceAdd => {
            if self.is_add_active {
                pop_char(&mut self.add_input);
                self.search_generation = self.search_generation.wrapping_add(1);
            }
        },
        AppAction::CancelAdd => {
            self.is_add_active = false;
            self.add_input = String::new();
            self.search_results = Vec::new();
            self.search_selected = 0;
        },
        AppAction::ConfirmAdd => {
            if self.is_add_active {
                self.is_add_active = false;
                self.confirm_add();
                self.add_input = String::new();
                self.search_results = Vec::new();
                self.search_selected = 0;
            }
        },
        AppAction::ConfirmSearchSelection => {
            if self.is_add_active && self.search_results.len() > 0 {
                self.confirm_suggestion();
                self.is_add_active = false;
                self.add_input = String::new();
                self.search_results = Vec::new();
                self.search_selected = 0;
            }
        },
            _ => {},
        }
    }

    /// The watchlist and quote updates.
    fn apply_data(&mut self, action: AppAction)
        requires
            (action is DeleteSelected || action is QuotesUpdated || action is NamesResolved),
        ensures
            apply_spec(*old(self), *final(self), action),
    {
        match action {
        AppAction::DeleteSelected => {
            if self.focused_panel == FocusedPanel::Watchlist && self.selected_watchlist < self.watchlist.len() {
                let removed = self.watchlist.remove(self.selected_watchlist);
                self.quotes.remove(removed.code.as_str());
                if self.selected_watchlist > 0 {
                    self.selected_watchlist = self.selected_watchlist - 1;
                }
            }
        },
        AppAction::QuotesUpdated(quotes) => {
            self.last_updated = utc_now();
            self.take_quotes(quotes);
        },
        AppAction::NamesResolved(pairs) => {
            self.take_names(pairs);
        },
            _ => {},
        }
    }

    /// Opening, leaving and saving screens.
    fn apply_screens(&mut self, action: AppAction)
        requires
            (action is EnterChart || action is ExitChart || action is StartBacktest
                || action is ExitBacktest || action is OpenSettings || action is ExitSettings
                || action is SettingsSaved),
        ensures
            apply_spec(*old(self), *final(self), action),
    {
        match action {
        AppAction::EnterChart(sym) => {
            self.screen = AppScreen::Chart(ChartState::new(sym, Period::Month1));
        },
        AppAction::ExitChart => {
            self.screen = AppScreen::Main;
        },
        AppAction::StartBacktest(sym) => {
            self.screen = AppScreen::Backtest(BacktestState::new(sym));
        },
        AppAction::ExitBacktest => {
            self.screen = AppScreen::Main;
        },
        AppAction::OpenSettings => {
            let ss = SettingsState::new(self.data_source, self.akshare_url.clone(), self.language);
            self.screen = AppScreen::Settings(ss);
        },
        AppAction::ExitSettings => {
            if let AppScreen::Settings(_) = self.screen {
                self.screen = AppScreen::Main;
            }
        },
        AppAction::SettingsSaved => {
            let mut screen = AppScreen::Main;
            std::mem::swap(&mut screen, &mut self.screen);
            match screen {
                AppScreen::Settings(ss) => {
                    self.data_source = ss.provider;
                    self.akshare_url = ss.akshare_url;
                    self.language = ss.language;
                },
                other => {
                    self.screen = other;
                },
            }
        },
            _ => {},
        }
    }

    /// Adds the typed ticker to the watchlist unless already there.
    fn confirm_add(&mut self)
        ensures
            *final(self) == (State { watchlist: final(self).watchlist, ..*old(self) }),
            added_typed(old(self).watchlist@, final(self).watchlist@, old(self).add_input@),
    {
        match parse_add_symbol(self.add_input.as_str()) {
            Some(sym) => {
                let ticker = sym.yahoo_ticker();
                let mut i: usize = 0;
                let mut found = false;
                while i < self.watchlist.len()
                    invariant
                        i <= self.watchlist@.len(),
                        found ==> has_ticker(self.watchlist@, sym.code@, sym.market),
                        !found ==> forall|j: int|
                            0 <= j < i ==> !(#[trigger] self.watchlist@[j].market == sym.market && yahoo_ticker_spec(
                                self.watchlist@[j].code@,
                                self.watchlist@[j].market,
                            ) == yahoo_ticker_spec(sym.code@, sym.market)),
                        ticker@ == yahoo_ticker_spec(sym.code@, sym.market),
                    decreases self.watchlist@.len() - i,
                {
                    let s = &self.watchlist[i];
                    if s.market == sym.market {
                        let t = s.yahoo_ticker();
                        if t == ticker {
                            found = true;
                        }
                    }
                    i = i + 1;
                }
                if !found {
                    self.watchlist.push(sym);
                    proof {
                        assert(self.watchlist@.drop_last() =~= old(self).watchlist@);
                    }
                }
            },
            None => {},
        }
    }

    /// Adds the selected suggestion, named, unless its code is already there.
    fn confirm_suggestion(&mut self)
        requires
            old(self).search_selected < old(self).search_results@.len(),
        ensures
            *final(self) == (State { watchlist: final(self).watchlist, ..*old(self) }),
            added_suggestion(
                old(self).watchlist@,
                final(self).watchlist@,
                old(self).search_results@[old(self).search_selected as int],
            ),
    {
        let suggestion = &self.search_results[self.search_selected];
        let sym = Symbol::new(suggestion.code.as_str(), Market::AShare).with_name(suggestion.name.as_str());
        let mut i: usize = 0;
        let mut found = false;
        while i < self.watchlist.len()
            invariant
                i <= self.watchlist@.len(),
                found ==> has_code(self.watchlist@, sym.code@),
                !found ==> forall|j: int| 0 <= j < i ==> (#[trigger] self.watchlist@[j]).code@ != sym.code@,
            decreases self.watchlist@.len() - i,
        {
            if self.watchlist[i].code == sym.code {
                found = true;
            }
            i = i + 1;
        }
        if !found {
            self.watchlist.push(sym);
            proof {
                assert(self.watchlist@.drop_last() =~= old(self).watchlist@);
            }
        }
    }

    /// Index of the first watchlist symbol with this code.
    fn find_code(&self, code: &String) -> (r: Option<usize>)
        ensures
            match r {
                Some(i) => first_code_index(self.watchlist@, code@) == Some(i as int) && i < self.watchlist@.len(),
                None => first_code_index(self.watchlist@, code@) is None,
            },
    {
        let ghost wl = self.watchlist@;
        let mut i: usize = 0;
        while i < self.watchlist.len()
            invariant
                wl == self.watchlist@,
                i <= wl.len(),
                forall|j: int| 0 <= j < i ==> (#[trigger] wl[j]).code@ != code@,
            decreases wl.len() - i,
        {
            if self.watchlist[i].code == *code {
                proof {
                    lemma_first_code_index(wl, code@, i as int);
                }
                return Some(i);
            }
            i = i + 1;
        }
        proof {
            lemma_first_code_index_none(wl, code@);
        }
        None
    }

    /// Stores the quotes and takes the names they carry.
    fn take_quotes(&mut self, quotes: Vec<Quote>)
        ensures
            *final(self) == (State { watchlist: final(self).watchlist, quotes: final(self).quotes, ..*old(self) }),
            final(self).watchlist@ == names_from_quotes(old(self).watchlist@, quotes@),
            final(self).quotes@ == store_quotes(old(self).quotes@, quotes@),
    {
        let mut i: usize = 0;
        proof {
            assert(quotes@.take(0) =~= Seq::<Quote>::empty());
        }
        while i < quotes.len()
            invariant
                i <= quotes@.len(),
                *self == (State { watchlist: self.watchlist, quotes: self.quotes, ..*old(self) }),
                self.watchlist@ == names_from_quotes(old(self).watchlist@, quotes@.take(i as int)),
                self.quotes@ == store_quotes(old(self).quotes@, quotes@.take(i as int)),
            decreases quotes@.len() - i,
        {
            let q = quotes[i].clone();
            proof {
                assert(quotes@.take(i as int + 1).drop_last() =~= quotes@.take(i as int));
                assert(quotes@.take(i as int + 1).last() == q);
            }
            match &q.name {
                Some(name) => {
                    if !name.as_str().is_empty() {
                        match self.find_code(&q.symbol.code) {
                            Some(k) => {
                                let mut sym = self.watchlist[k].clone();
                                sym.name = Some(name.clone());
                                self.watchlist.set(k, sym);
                            },
                            None => {},
                        }
                    }
                },
                None => {},
            }
            let code = q.symbol.code.clone();
            self.quotes.insert(code, q);
            i = i + 1;
        }
        proof {
            assert(quotes@.take(quotes@.len() as int) =~= quotes@);
        }
    }

    /// Takes the resolved names for symbols that have none.
    fn take_names(&mut self, pairs: Vec<(String, String)>)
        ensures
            *final(self) == (State { watchlist: final(self).watchlist, ..*old(self) }),
            final(self).watchlist@ == names_from_pairs(old(self).watchlist@, pairs@),
    {
        let mut i: usize = 0;
        proof {
            assert(pairs@.take(0) =~= Seq::<(String, String)>::empty());
        }
        while i < pairs.len()
            invariant
                i <= pairs@.len(),
                *self == (State { watchlist: self.watchlist, ..*old(self) }),
                self.watchlist@ == names_from_pairs(old(self).watchlist@, pairs@.take(i as int)),
            decreases pairs@.len() - i,
        {
            let code = &pairs[i].0;
            let name = &pairs[i].1;
            proof {
                assert(pairs@.take(i as int + 1).drop_last() =~= pairs@.take(i as int));
                assert(pairs@.take(i as int + 1).last() == pairs@[i as int]);
            }
            if !name.as_str().is_empty() {
                match self.find_code(code) {
                    Some(k) => {
                        if self.watchlist[k].name.is_none() {
                            let mut sym = self.watchlist[k].clone();
                            sym.name = Some(name.clone());
                            self.watchlist.set(k, sym);
                        }
                    },
                    None => {},
                }
            }
            i = i + 1;
        }
        proof {
            assert(pairs@.take(pairs@.len() as int) =~= pairs@);
        }
    }

    /// The chart actions.
    fn apply_chart(&mut self, action: AppAction)
        requires
            action_ok(*old(self), action),
            (action is ChartDataLoaded || action is ChartFetchFailed || action is ChartMoveCursor
                || action is ChartZoom || action is ChartChangePeriod || action is ChartLoadMoreHistory),
        ensures
            apply_spec(*old(self), *final(self), action),
    {
        let mut screen = AppScreen::Main;
        std::mem::swap(&mut screen, &mut self.screen);
        match screen {
            AppScreen::Chart(mut cs) => {
                match action {
                    AppAction::ChartDataLoaded(data) => {
                        let len = data.len();
                        cs.cursor = if cs.is_load_more {
                            0
                        } else if len > 0 {
                            len - 1
                        } else {
                            0
                        };
                        cs.data = data;
                        cs.loading = false;
                        cs.is_load_more = false;
                        cs.error = None;
                    },
                    AppAction::ChartFetchFailed(msg) => {
                        cs.loading = false;
                        cs.error = Some(msg);
                    },
                    AppAction::ChartMoveCursor(delta) => {
                        let len = cs.data.len();
                        if len > 0 {
                            let v: i64 = cs.cursor as i64 + delta as i64;
                            let hi: i64 = len as i64 - 1;
                            cs.cursor = if v < 0 {
                                0
                            } else if v > hi {
                                hi as usize
                            } else {
                                v as usize
                            };
                        }
                    },
                    AppAction::ChartZoom(zoom_in) => {
                        if zoom_in {
                            if cs.bar_width < 8 {
                                cs.bar_width = cs.bar_width + 1;
                            }
                        } else if cs.bar_width > 2 {
                            cs.bar_width = cs.bar_width - 1;
                        }
                    },
                    AppAction::ChartChangePeriod(period) => {
                        cs.period = period;
                        cs.loading = true;
                        cs.data = Vec::new();
                        cs.error = None;
                        cs.history_extended = false;
                    },
                    _ => {
                        if cs.period.can_extend_history() && !cs.history_extended {
                            cs.history_extended = true;
                            cs.loading = true;
                            cs.data = Vec::new();
                            cs.error = None;
                            cs.cursor = 0;
                            cs.is_load_more = true;
                        }
                    },
                }
                self.screen = AppScreen::Chart(cs);
            },
            other => {
                self.screen = other;
            },
        }
    }

    /// The backtest actions.
    fn apply_backtest(&mut self, action: AppAction)
        requires
            (action is RunBacktest || action is BacktestComplete || action is BacktestFailed
                || action is BacktestNextStrategy || action is BacktestPrevStrategy || action is BacktestScrollUp
                || action is BacktestScrollDown),
        ensures
            apply_spec(*old(self), *final(self), action),
    {
        let mut screen = AppScreen::Main;
        std::mem::swap(&mut screen, &mut self.screen);
        match screen {
            AppScreen::Backtest(mut bs) => {
                match action {
                    AppAction::RunBacktest => {
                        bs.status = BacktestStatus::Running;
                        bs.result = None;
                    },
                    AppAction::BacktestComplete(result) => {
                        bs.result = Some(result);
                        bs.status = BacktestStatus::Done;
                        bs.trade_scroll = 0;
                    },
                    AppAction::BacktestFailed(msg) => {
                        bs.status = BacktestStatus::Error(msg);
                    },
                    AppAction::BacktestNextStrategy => {
                        let count = BacktestState::strategy_count();
                        bs.strategy_idx = (bs.strategy_idx % count + 1) % count;
                        proof {
                            vstd::arithmetic::div_mod::lemma_add_mod_noop_right(1, old(self).screen->Backtest_0.strategy_idx as int, 3);
                        }
                    },
                    AppAction::BacktestPrevStrategy => {
                        let count = BacktestState::strategy_count();
                        bs.strategy_idx = (bs.strategy_idx % count + count - 1) % count;
                        proof {
                            vstd::arithmetic::div_mod::lemma_add_mod_noop_right(2, old(self).screen->Backtest_0.strategy_idx as int, 3);
                        }
                    },
                    AppAction::BacktestScrollUp => {
                        if bs.trade_scroll > 0 {
                            bs.trade_scroll = bs.trade_scroll - 1;
                        }
                    },
                    _ => {
                        match &bs.result {
                            Some(result) => {
                                let n = result.trades.len();
                                let max = if n > 0 {
                                    n - 1
                                } else {
                                    0
                                };
                                bs.trade_scroll = if bs.trade_scroll < max && bs.trade_scroll + 1 < max {
                                    bs.trade_scroll + 1
                                } else {
                                    max
                                };
                            },
                            None => {},
                        }
                    },
                }
                self.screen = AppScreen::Backtest(bs);
            },
            other => {
                self.screen = other;
            },
        }
    }

    /// The settings actions other than saving and leaving.
    fn apply_settings(&mut self, action: AppAction)
        requires
            (action is SettingsNavUp || action is SettingsNavDown || action is SettingsSelectProvider
                || action is SettingsEditUrlChar || action is SettingsEditUrlBackspace
                || action is SettingsToggleUrlEdit || action is SettingsSelectLanguage),
        ensures
            apply_spec(*old(self), *final(self), action),
    {
        let mut screen = AppScreen::Main;
        std::mem::swap(&mut screen, &mut self.screen);
        match screen {
            AppScreen::Settings(mut ss) => {
                match action {
                    AppAction::SettingsNavUp => {
                        ss.move_up();
                    },
                    AppAction::SettingsNavDown => {
                        ss.move_down();
                    },
                    AppAction::SettingsSelectProvider(kind) => {
                        ss.provider = kind;
                    },
                    AppAction::SettingsEditUrlChar(c) => {
                        if ss.editing_url {
                            push_char(&mut ss.akshare_url, c);
                        }
                    },
                    AppAction::SettingsEditUrlBackspace => {
                        if ss.editing_url {
                            pop_char(&mut ss.akshare_url);
                        }
                    },
                    AppAction::SettingsToggleUrlEdit => {
                        if ss.focused_field == 1 {
                            ss.editing_url = !ss.editing_url;
                        }
                    },
                    AppAction::SettingsSelectLanguage(lang) => {
                        ss.language = lang;
                    },
                    _ => {},
                }
                self.screen = AppScreen::Settings(ss);
            },
            other => {
                self.screen = other;
            },
        }
    }

    /// The watchlist symbol under the cursor, if any (charts and backtests
    /// always start from the watchlist).
    pub fn selected_symbol(&self) -> (r: Option<&Symbol>)
        ensures
            self.selected_watchlist < self.watchlist@.len() ==> r == Some(&self.watchlist@[self.selected_watchlist as int]),
            self.selected_watchlist >= self.watchlist@.len() ==> r is None,
    {
        if self.selected_watchlist < self.watchlist.len() {
            Some(&self.watchlist[self.selected_watchlist])
        } else {
            None
        }
    }

    /// The interface strings of the current language.
    pub fn strings(&self) -> (r: Strings)
        ensures
            r == (match self.language {
                Language::Zh => zh_table(),
                Language::En => en_table(),
            }),
    {
        Strings::for_language(self.language)
    }
}

/// The first index with a code is the first match.
proof fn lemma_first_code_index(wl: Seq<Symbol>, code: Seq<char>, i: int)
    requires
        0 <= i < wl.len(),
        wl[i].code@ == code,
        forall|j: int| 0 <= j < i ==> (#[trigger] wl[j]).code@ != code,
    ensures
        first_code_index(wl, code) == Some(i),
    decreases i,
{
    if i > 0 {
        let rest = wl.subrange(1, wl.len() as int);
        assert forall|j: int| 0 <= j < i - 1 implies (#[trigger] rest[j]).code@ != code by {
            assert(rest[j] == wl[j + 1]);
        }
        assert(wl[0].code@ != code);
        lemma_first_code_index(rest, code, i - 1);
    }
}

/// No match means no first index.
proof fn lemma_first_code_index_none(wl: Seq<Symbol>, code: Seq<char>)
    requires
        forall|j: int| 0 <= j < wl.len() ==> (#[trigger] wl[j]).code@ != code,
    ensures
        first_code_index(wl, code) is None,
    decreases wl.len(),
{
    if wl.len() > 0 {
        let rest = wl.subrange(1, wl.len() as int);
        assert forall|j: int| 0 <= j < rest.len() implies (#[trigger] rest[j]).code@ != code by {
            assert(rest[j] == wl[j + 1]);
        }
        assert(wl[0].code@ != code);
        lemma_first_code_index_none(rest, code);
    }
}

/// No two watchlist symbols of the same market share a Yahoo ticker.
pub open spec fn distinct_tickers(wl: Seq<Symbol>) -> bool {
    forall|i: int, j: int|
        0 <= i < j < wl.len() ==> !(#[trigger] wl[i].market == #[trigger] wl[j].market && yahoo_ticker_spec(
            wl[i].code@,
            wl[i].market,
        ) == yahoo_ticker_spec(wl[j].code@, wl[j].market))
}

/// Law: adding a typed ticker never brings in a second symbol with the same
/// market and Yahoo ticker.
pub proof fn lemma_add_keeps_tickers_distinct(o: State, n: State)
    requires
        apply_spec(o, n, AppAction::ConfirmAdd),
        distinct_tickers(o.watchlist@),
    ensures
        distinct_tickers(n.watchlist@),
{
    if o.is_add_active {
        if let Some((code, market)) = parse_add_spec(o.add_input@) {
            if !has_ticker(o.watchlist@, code, market) {
                let wl = n.watchlist@;
                assert forall|i: int, j: int| 0 <= i < j < wl.len() implies !(#[trigger] wl[i].market
                    == #[trigger] wl[j].market && yahoo_ticker_spec(wl[i].code@, wl[i].market) == yahoo_ticker_spec(
                    wl[j].code@,
                    wl[j].market,
                )) by {
                    assert(wl[i] == o.watchlist@[i]);
                    if j < wl.len() - 1 {
                        assert(wl[j] == o.watchlist@[j]);
                    } else {
                        assert(wl[j] == wl.last());
                    }
                }
            }
        }
    }
}

/// Law: moving the selection down or up in a non-empty focused list leaves
/// it within the list, from any position for a move down and from a
/// position within the list for a move up.
pub proof fn lemma_move_keeps_selection_in_list(o: State, n: State, down: bool)
    requires
        apply_spec(o, n, if down { AppAction::MoveDown } else { AppAction::MoveUp }),
        o.focused_panel == FocusedPanel::Watchlist,
        o.watchlist@.len() > 0,
        !down ==> o.selected_watchlist < o.watchlist@.len(),
    ensures
        n.selected_watchlist < n.watchlist@.len(),
{
    let len = o.watchlist@.len() as int;
    let cur = o.selected_watchlist as int;
    assert(0 <= (cur + 1) % len < len) by (nonlinear_arith)
        requires
            len > 0,
    ;
}

/// Law: zooming keeps the candle width within 2 to 8 columns.
pub proof fn lemma_zoom_keeps_width(o: State, n: State, zoom_in: bool)
    requires
        apply_spec(o, n, AppAction::ChartZoom(zoom_in)),
        o.screen matches AppScreen::Chart(cs) && 2 <= cs.bar_width <= 8,
    ensures
        n.screen matches AppScreen::Chart(ncs) && 2 <= ncs.bar_width <= 8,
{
}

/// Law: stepping through the strategies always lands on one of the three.
pub proof fn lemma_strategy_index_in_range(o: State, n: State, forward: bool)
    requires
        apply_spec(o, n, if forward { AppAction::BacktestNextStrategy } else { AppAction::BacktestPrevStrategy }),
        o.screen is Backtest,
    ensures
        n.screen matches AppScreen::Backtest(bs) && bs.strategy_idx < 3,
{
}

/// Law: saving settings outside the settings screen changes nothing, and
/// on it takes over the edited provider, URL and language and returns to
/// the main screen.
pub proof fn lemma_save_only_from_settings(o: State, n: State)
    requires
        apply_spec(o, n, AppAction::SettingsSaved),
    ensures
        !(o.screen is Settings) ==> n == o,
        o.screen matches AppScreen::Settings(ss) ==> n.screen is Main && n.data_source == ss.provider
            && n.akshare_url == ss.akshare_url && n.language == ss.language,
{
}

/// Law: search results for an older input are dropped.
pub proof fn lemma_stale_results_dropped(o: State, n: State, generation: u64, results: Vec<StockSuggestion>)
    requires
        apply_spec(o, n, AppAction::SearchResultsUpdated(generation, results)),
        generation != o.search_generation,
    ensures
        n == o,
{
}

} // verus!
