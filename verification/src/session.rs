//! The decisions of the running program: the state it starts from, what
//! follows an action (fetches, backtests, searches, storage updates), and
//! how a searched name is matched to a symbol.

use vstd::prelude::*;
use crate::backtest::engine::BacktestConfig;
use crate::data::akshare::AkShareProvider;
use crate::data::sina::{SinaFinanceProvider, StockSuggestion};
use crate::data::zhitu::ZhituProvider;
use crate::market::Market;
use crate::data::zhitu::bare_code_spec;
use crate::period::Period;
use crate::portfolio::Portfolio;
use crate::symbol::Symbol;
use crate::text::{chars_eq, to_chars, sub_chars, starts_with};
use crate::tui::app::{AppAction, AppScreen, BacktestStatus, DataSourceKind, State, action_ok, apply_spec, fresh_session};
use crate::tui::i18n::{Language, language_of_key};

verus! {

/// The data source stored under a key: "akshare", "sina", and Zhitu for
/// anything else or nothing.
pub open spec fn stored_source_spec(key: Option<Seq<char>>) -> DataSourceKind {
    match key {
        Some(k) => if k == "akshare"@ {
            DataSourceKind::AkShare
        } else if k == "sina"@ {
            DataSourceKind::Sina
        } else {
            DataSourceKind::Zhitu
        },
        None => DataSourceKind::Zhitu,
    }
}

/// The storage key of a data source.
pub open spec fn provider_key_spec(k: DataSourceKind) -> Seq<char> {
    match k {
        DataSourceKind::Sina => "sina"@,
        DataSourceKind::AkShare => "akshare"@,
        DataSourceKind::Zhitu => "zhitu"@,
    }
}

/// The storage key of a data source: "sina", "akshare" or "zhitu".
pub fn provider_key(kind: DataSourceKind) -> (r: &'static str)
    ensures
        r@ == provider_key_spec(kind),
{
    match kind {
        DataSourceKind::Sina => "sina",
        DataSourceKind::AkShare => "akshare",
        DataSourceKind::Zhitu => "zhitu",
    }
}

/// Whether the provider that a data source is served by serves the market:
/// each data source has one provider and no fallback, and each of them
/// serves A-shares only.
pub fn source_supports(kind: DataSourceKind, akshare_url: &str, zhitu_token: &str, market: &Market) -> (r: bool)
    ensures
        r == (*market == Market::AShare),
{
    match kind {
        DataSourceKind::Sina => SinaFinanceProvider::new().supports(market),
        DataSourceKind::AkShare => AkShareProvider::with_base_url(akshare_url.to_owned()).supports(market),
        DataSourceKind::Zhitu => ZhituProvider::new(zhitu_token.to_owned()).supports(market),
    }
}

/// The data source stored under `key`.
fn stored_source(key: &Option<String>) -> (r: DataSourceKind)
    ensures
        r == stored_source_spec(match key {
            Some(k) => Some(k@),
            None => None,
        }),
{
    match key {
        Some(k) => {
            let kc = to_chars(k.as_str());
            if chars_eq(&kc, &to_chars("akshare")) {
                DataSourceKind::AkShare
            } else if chars_eq(&kc, &to_chars("sina")) {
                DataSourceKind::Sina
            } else {
                DataSourceKind::Zhitu
            }
        },
        None => DataSourceKind::Zhitu,
    }
}

/// The state the program starts in, from what storage holds: the stored
/// data source (Zhitu by default), AKTools URL (the local default when
/// none) and language (Chinese when none or unknown), the watchlist and the
/// portfolio; everything else as in the default state.
pub fn build_initial_state(
    provider: Option<String>,
    akshare_url: Option<String>,
    language: Option<String>,
    watchlist: Vec<Symbol>,
    portfolio: Portfolio,
) -> (r: State)
    ensures
        r.data_source == stored_source_spec(match provider {
            Some(k) => Some(k@),
            None => None,
        }),
        r.akshare_url@ == (match akshare_url {
            Some(u) => u@,
            None => "http://127.0.0.1:8080"@,
        }),
        r.language == (match language {
            Some(l) => match language_of_key(l@) {
                Some(x) => x,
                None => Language::Zh,
            },
            None => Language::Zh,
        }),
        r.watchlist == watchlist,
        r.portfolio == portfolio,
        fresh_session(r),
{
    let data_source = stored_source(&provider);
    let url = match akshare_url {
        Some(u) => u,
        None => "http://127.0.0.1:8080".to_owned(),
    };
    let lang = match &language {
        Some(l) => match Language::parse(l.as_str()) {
            Some(x) => x,
            None => Language::Zh,
        },
        None => Language::Zh,
    };
    let mut s = State::default();
    s.watchlist = watchlist;
    s.portfolio = portfolio;
    s.data_source = data_source;
    s.akshare_url = url;
    s.language = lang;
    s
}

/// Applies `action`; when it saved the settings (on the settings screen),
/// returns the data source and URL to rebuild the provider with.
pub fn router_config_after_action(state: &mut State, action: AppAction) -> (r: Option<(DataSourceKind, String)>)
    requires
        action_ok(*old(state), action),
    ensures
        apply_spec(*old(state), *final(state), action),
        (action is SettingsSaved && old(state).screen is Settings) ==> r == Some(
            (final(state).data_source, final(state).akshare_url),
        ),
        !(action is SettingsSaved && old(state).screen is Settings) ==> r is None,
{
    let should_capture = match (&action, &state.screen) {
        (AppAction::SettingsSaved, AppScreen::Settings(_)) => true,
        _ => false,
    };
    state.apply(action);
    if should_capture {
        Some((state.data_source, state.akshare_url.clone()))
    } else {
        None
    }
}

/// What has to happen after an action besides the state change.
pub struct Effects {
    /// Fetch the bars of this symbol over this period; `true` to fetch the
    /// extended history.
    pub fetch_ohlcv: Option<(Symbol, Period, bool)>,
    /// Run the strategy at this index over this symbol with these settings.
    pub run_backtest: Option<(Symbol, usize, BacktestConfig)>,
    /// Search suggestions for this input, tagged with its generation.
    pub search: Option<(String, u64)>,
    /// Rebuild the provider with this data source and URL, and store them.
    pub router_config: Option<(DataSourceKind, String)>,
    pub should_quit: bool,
    /// Store this newly watched symbol.
    pub added: Option<Symbol>,
    /// Forget this symbol, no longer watched.
    pub removed: Option<Symbol>,
}

/// The effects of `a`, taking `o` to `n`: a chart being opened, re-periodised
/// or extended fetches its bars (the extended history after a successful
/// "load more"); a backtest run request on the backtest screen starts a run
/// unless one is running; an edit of the add input searches it; saving the
/// settings rebuilds the provider; a ticker actually added or deleted is
/// stored or forgotten.
pub open spec fn effects_spec(o: State, n: State, a: AppAction, e: Effects) -> bool {
    &&& e.fetch_ohlcv == (if (a is EnterChart || a is ChartChangePeriod || a is ChartLoadMoreHistory) && n.screen is Chart {
        Some((n.screen->Chart_0.symbol, n.screen->Chart_0.period, a is ChartLoadMoreHistory && n.screen->Chart_0.history_extended))
    } else {
        None
    })
    &&& e.run_backtest == (if a is RunBacktest && !(o.screen matches AppScreen::Backtest(bs) && bs.status is Running)
        && n.screen is Backtest {
        Some((n.screen->Backtest_0.symbol, n.screen->Backtest_0.strategy_idx, n.screen->Backtest_0.config))
    } else {
        None
    })
    &&& (if (a is UpdateAddInput || a is BackspaceAdd) && n.is_add_active {
        e.search matches Some((q, g)) && q@ == n.add_input@ && g == n.search_generation
    } else {
        e.search is None
    })
    &&& e.router_config == (if a is SettingsSaved && o.screen is Settings {
        Some((n.data_source, n.akshare_url))
    } else {
        None
    })
    &&& e.should_quit == n.should_quit
    &&& e.added == (if a is ConfirmAdd && n.watchlist@.len() > o.watchlist@.len() {
        Some(n.watchlist@.last())
    } else {
        None
    })
    &&& e.removed == (if a is DeleteSelected && n.watchlist@.len() < o.watchlist@.len() && o.selected_watchlist
        < o.watchlist@.len() {
        Some(o.watchlist@[o.selected_watchlist as int])
    } else {
        None
    })
}

/// Applies `action` to the state and says what has to follow it.
pub fn dispatch(state: &mut State, action: AppAction) -> (r: Effects)
    requires
        action_ok(*old(state), action),
    ensures
        apply_spec(*old(state), *final(state), action),
        effects_spec(*old(state), *final(state), action, r),
{
    let needs_ohlcv_fetch = match &action {
        AppAction::EnterChart(_) | AppAction::ChartChangePeriod(_) | AppAction::ChartLoadMoreHistory => true,
        _ => false,
    };
    let is_load_more = match &action {
        AppAction::ChartLoadMoreHistory => true,
        _ => false,
    };
    let needs_backtest_run = match &action {
        AppAction::RunBacktest => true,
        _ => false,
    };
    let needs_search = match &action {
        AppAction::UpdateAddInput(_) | AppAction::BackspaceAdd => true,
        _ => false,
    };
    let is_confirm_add = match &action {
        AppAction::ConfirmAdd => true,
        _ => false,
    };
    let is_delete = match &action {
        AppAction::DeleteSelected => true,
        _ => false,
    };
    let prev_len = state.watchlist.len();
    let symbol_to_delete = if is_delete && state.selected_watchlist < state.watchlist.len() {
        Some(state.watchlist[state.selected_watchlist].clone())
    } else {
        None
    };
    let already_running = match &state.screen {
        AppScreen::Backtest(bs) => match bs.status {
            BacktestStatus::Running => true,
            _ => false,
        },
        _ => false,
    };
    let router_config = router_config_after_action(state, action);
    let fetch_ohlcv = if needs_ohlcv_fetch {
        match &state.screen {
            AppScreen::Chart(cs) => Some((cs.symbol.clone(), cs.period, is_load_more && cs.history_extended)),
            _ => None,
        }
    } else {
        None
    };
    let run_backtest = if needs_backtest_run && !already_running {
        match &state.screen {
            AppScreen::Backtest(bs) => Some((bs.symbol.clone(), bs.strategy_idx, bs.config)),
            _ => None,
        }
    } else {
        None
    };
    let search = if needs_search && state.is_add_active {
        Some((state.add_input.clone(), state.search_generation))
    } else {
        None
    };
    let added = if is_confirm_add && state.watchlist.len() > prev_len {
        Some(state.watchlist[state.watchlist.len() - 1].clone())
    } else {
        None
    };
    let removed = if is_delete && state.watchlist.len() < prev_len {
        symbol_to_delete
    } else {
        None
    };
    Effects { fetch_ohlcv, run_backtest, search, router_config, should_quit: state.should_quit, added, removed }
}

/// Index of the first suggestion whose code is `a` or `b`.
pub open spec fn first_suggestion(rs: Seq<StockSuggestion>, a: Seq<char>, b: Seq<char>) -> Option<int>
    decreases rs.len(),
{
    if rs.len() == 0 {
        None
    } else if rs[0].code@ == a || rs[0].code@ == b {
        Some(0)
    } else {
        match first_suggestion(rs.drop_first(), a, b) {
            Some(i) => Some(i + 1),
            None => None,
        }
    }
}

/// The name found for `symbol` among search results: that of the first
/// result whose code is the symbol's bare code (without "sh", "sz" or "bj")
/// or its full code.
pub fn match_symbol_name(symbol: &Symbol, results: &Vec<StockSuggestion>) -> (r: Option<String>)
    ensures
        match first_suggestion(results@, bare_code_spec(symbol.code@), symbol.code@) {
            Some(i) => r matches Some(n) && n@ == results@[i].name@,
            None => r is None,
        },
{
    let code = to_chars(symbol.code.as_str());
    let sh: [char; 2] = ['s', 'h'];
    let sz: [char; 2] = ['s', 'z'];
    let bj: [char; 2] = ['b', 'j'];
    proof {
        assert(sh@ =~= seq!['s', 'h']);
        assert(sz@ =~= seq!['s', 'z']);
        assert(bj@ =~= seq!['b', 'j']);
    }
    let bare = if starts_with(&code, &sh) || starts_with(&code, &sz) || starts_with(&code, &bj) {
        sub_chars(&code, 2, code.len())
    } else {
        code.clone()
    };
    let ghost a = bare_code_spec(symbol.code@);
    let mut i: usize = 0;
    proof {
        assert(results@.skip(0) =~= results@);
    }
    while i < results.len()
        invariant
            i <= results@.len(),
            bare@ == a,
            a == bare_code_spec(symbol.code@),
            code@ == symbol.code@,
            first_suggestion(results@, a, symbol.code@) == (match first_suggestion(
                results@.skip(i as int),
                a,
                symbol.code@,
            ) {
                Some(k) => Some(k + i),
                None => None,
            }),
        decreases results@.len() - i,
    {
        let rc = to_chars(results[i].code.as_str());
        proof {
            assert(results@.skip(i as int)[0] == results@[i as int]);
            assert(results@.skip(i as int).drop_first() =~= results@.skip(i as int + 1));
        }
        if chars_eq(&rc, &bare) || chars_eq(&rc, &code) {
            proof {
                assert(first_suggestion(results@.skip(i as int), a, symbol.code@) == Some(0int));
                assert(first_suggestion(results@, a, symbol.code@) == Some(i as int));
            }
            let n = results[i].name.clone();
            proof {
                assert(n@ == results@[i as int].name@);
            }
            return Some(n);
        }
        proof {
            assert(first_suggestion(results@.skip(i as int), a, symbol.code@) == (match first_suggestion(
                results@.skip(i as int + 1),
                a,
                symbol.code@,
            ) {
                Some(k) => Some(k + 1),
                None => None,
            }));
        }
        i = i + 1;
    }
    None
}

} // verus!
