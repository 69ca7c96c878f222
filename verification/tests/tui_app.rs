use fa::data::sina::StockSuggestion;
use fa::decimal::Dec;
use fa::market::Market;
use fa::ohlcv::{Quote, OHLCV};
use fa::period::Period;
use fa::symbol::Symbol;
use fa::tui::app::{
    parse_add_symbol, AppAction, AppScreen, BacktestState, BacktestStatus, ChartState, DataSourceKind, FocusedPanel,
    SettingsState, State,
};
use fa::tui::i18n::{Language, Strings};

fn make_state() -> State {
    State {
        watchlist: vec![Symbol::new("AAPL", Market::USStock), Symbol::new("TSLA", Market::USStock)],
        ..Default::default()
    }
}

fn ohlcv(close: i64) -> OHLCV {
    OHLCV {
        symbol: Symbol::new("AAPL", Market::USStock),
        timestamp: 0,
        open: Dec::new(100, 0),
        high: Dec::new(110, 0),
        low: Dec::new(90, 0),
        close: Dec::new(close, 0),
        volume: 1000,
    }
}

fn make_dummy_ohlcv(count: usize) -> Vec<OHLCV> {
    (0..count).map(|_| ohlcv(102)).collect()
}

fn chart_with(data: Vec<OHLCV>) -> AppScreen {
    AppScreen::Chart(ChartState {
        symbol: Symbol::new("AAPL", Market::USStock),
        period: Period::Month1,
        data,
        cursor: 0,
        bar_width: 3,
        ma_periods: vec![5],
        loading: false,
        error: None,
        is_load_more: false,
        history_extended: false,
    })
}

fn quote(code: &str, name: Option<&str>) -> Quote {
    Quote {
        symbol: Symbol::new(code, Market::AShare),
        price: Dec::zero(),
        change: Dec::zero(),
        change_pct: Dec::zero(),
        open: None,
        high: None,
        low: None,
        volume: None,
        market_cap: None,
        pe_ratio: None,
        week_52_high: None,
        week_52_low: None,
        name: name.map(|n| n.to_string()),
        timestamp: 0,
    }
}

fn suggestion(code: &str, name: &str) -> StockSuggestion {
    StockSuggestion { code: code.into(), name: name.into() }
}

#[test]
fn test_move_down_wraps() {
    let mut s = make_state();
    s.selected_watchlist = 1;
    s.apply(AppAction::MoveDown);
    assert_eq!(s.selected_watchlist, 0);
}

#[test]
fn test_move_up_wraps() {
    let mut s = make_state();
    s.selected_watchlist = 0;
    s.apply(AppAction::MoveUp);
    assert_eq!(s.selected_watchlist, 1);
}

#[test]
fn move_down_from_past_the_end_lands_in_the_list() {
    let mut s = make_state();
    s.selected_watchlist = usize::MAX;
    s.apply(AppAction::MoveDown);
    assert!(s.selected_watchlist < 2);
}

#[test]
fn test_tab_cycles_panels() {
    let mut s = make_state();
    assert_eq!(s.focused_panel, FocusedPanel::Watchlist);
    s.apply(AppAction::NextPanel);
    assert_eq!(s.focused_panel, FocusedPanel::Portfolio);
    s.apply(AppAction::NextPanel);
    assert_eq!(s.focused_panel, FocusedPanel::Watchlist);
}

#[test]
fn test_start_search() {
    let mut s = make_state();
    s.apply(AppAction::StartSearch);
    assert!(s.is_search_active);
}

#[test]
fn test_cancel_search() {
    let mut s = make_state();
    s.is_search_active = true;
    s.search_input = "AAPL".into();
    s.apply(AppAction::CancelSearch);
    assert!(!s.is_search_active);
    assert!(s.search_input.is_empty());
}

#[test]
fn search_input_edits_only_while_searching() {
    let mut s = make_state();
    s.apply(AppAction::UpdateSearchInput('x'));
    assert!(s.search_input.is_empty());
    s.apply(AppAction::StartSearch);
    s.apply(AppAction::UpdateSearchInput('a'));
    s.apply(AppAction::UpdateSearchInput('b'));
    s.apply(AppAction::BackspaceSearch);
    assert_eq!(s.search_input, "a");
}

#[test]
fn test_start_add_activates_mode() {
    let mut s = make_state();
    s.apply(AppAction::StartAdd);
    assert!(s.is_add_active);
    assert!(s.add_input.is_empty());
}

#[test]
fn test_cancel_add_clears_mode() {
    let mut s = make_state();
    s.is_add_active = true;
    s.add_input = "AAP".into();
    s.apply(AppAction::CancelAdd);
    assert!(!s.is_add_active);
    assert!(s.add_input.is_empty());
}

#[test]
fn test_confirm_add_us_stock() {
    let mut s = make_state();
    s.is_add_active = true;
    s.add_input = "MSFT".into();
    let len_before = s.watchlist.len();
    s.apply(AppAction::ConfirmAdd);
    assert!(!s.is_add_active);
    assert_eq!(s.watchlist.len(), len_before + 1);
    let added = s.watchlist.last().unwrap();
    assert_eq!(added.code, "MSFT");
    assert_eq!(added.market, Market::USStock);
}

#[test]
fn test_confirm_add_a_share_sh_prefix() {
    let mut s = make_state();
    s.is_add_active = true;
    s.add_input = "sh600519".into();
    s.apply(AppAction::ConfirmAdd);
    let added = s.watchlist.last().unwrap();
    assert_eq!(added.code, "sh600519");
    assert_eq!(added.market, Market::AShare);
}

#[test]
fn test_confirm_add_a_share_digits() {
    let mut s = make_state();
    s.is_add_active = true;
    s.add_input = "000001".into();
    s.apply(AppAction::ConfirmAdd);
    let added = s.watchlist.last().unwrap();
    assert_eq!(added.code, "000001");
    assert_eq!(added.market, Market::AShare);
}

#[test]
fn test_confirm_add_empty_input_does_nothing() {
    let mut s = make_state();
    s.is_add_active = true;
    s.add_input = "   ".into();
    let len_before = s.watchlist.len();
    s.apply(AppAction::ConfirmAdd);
    assert!(!s.is_add_active);
    assert_eq!(s.watchlist.len(), len_before);
}

#[test]
fn test_confirm_add_duplicate_does_not_add() {
    let mut s = make_state();
    s.is_add_active = true;
    s.add_input = "AAPL".into();
    let len_before = s.watchlist.len();
    s.apply(AppAction::ConfirmAdd);
    assert_eq!(s.watchlist.len(), len_before);
}

#[test]
fn test_update_and_backspace_add_input() {
    let mut s = make_state();
    s.is_add_active = true;
    s.apply(AppAction::UpdateAddInput('A'));
    s.apply(AppAction::UpdateAddInput('A'));
    s.apply(AppAction::UpdateAddInput('P'));
    assert_eq!(s.add_input, "AAP");
    s.apply(AppAction::BackspaceAdd);
    assert_eq!(s.add_input, "AA");
}

#[test]
fn test_confirm_add_ignored_when_mode_inactive() {
    let mut s = make_state();
    s.add_input = "MSFT".into();
    let len_before = s.watchlist.len();
    s.apply(AppAction::ConfirmAdd);
    assert!(!s.is_add_active);
    assert_eq!(s.watchlist.len(), len_before);
    assert_eq!(s.add_input, "MSFT");
}

#[test]
fn test_confirm_add_a_share_duplicate_by_ticker_does_not_add() {
    let mut s = make_state();
    s.is_add_active = true;
    s.add_input = "sh600519".into();
    s.apply(AppAction::ConfirmAdd);
    s.is_add_active = true;
    s.add_input = "600519".into();
    let len_before = s.watchlist.len();
    s.apply(AppAction::ConfirmAdd);
    assert_eq!(s.watchlist.len(), len_before);
}

#[test]
fn parse_add_symbol_infers_market() {
    let s = parse_add_symbol("  SZ000001 ").unwrap();
    assert_eq!(s.code, "sz000001");
    assert_eq!(s.market, Market::AShare);
    let s = parse_add_symbol("brk.b").unwrap();
    assert_eq!(s.code, "BRK.B");
    assert_eq!(s.market, Market::USStock);
    assert!(parse_add_symbol(" \t ").is_none());
}

#[test]
fn test_delete_from_watchlist() {
    let mut s = make_state();
    s.selected_watchlist = 0;
    s.apply(AppAction::DeleteSelected);
    assert_eq!(s.watchlist.len(), 1);
    assert_eq!(s.watchlist[0].code, "TSLA");
}

#[test]
fn test_quit_sets_flag() {
    let mut s = make_state();
    s.apply(AppAction::Quit);
    assert!(s.should_quit);
}

#[test]
fn test_delete_cleans_up_quotes() {
    let mut s = make_state();
    let mut q = quote("AAPL", None);
    q.symbol = Symbol::new("AAPL", Market::USStock);
    s.quotes.insert("AAPL".into(), q);
    s.selected_watchlist = 0;
    s.apply(AppAction::DeleteSelected);
    assert_eq!(s.watchlist.len(), 1);
    assert!(!s.quotes.contains_key("AAPL"));
}

#[test]
fn delete_moves_the_selection_up() {
    let mut s = make_state();
    s.selected_watchlist = 1;
    s.apply(AppAction::DeleteSelected);
    assert_eq!(s.selected_watchlist, 0);
    assert_eq!(s.watchlist[0].code, "AAPL");
}

#[test]
fn test_enter_chart_sets_screen() {
    let mut s = make_state();
    s.apply(AppAction::EnterChart(Symbol::new("AAPL", Market::USStock)));
    assert!(matches!(s.screen, AppScreen::Chart(_)));
}

#[test]
fn test_exit_chart_returns_to_main() {
    let mut s = make_state();
    s.screen = AppScreen::Chart(ChartState::new(Symbol::new("AAPL", Market::USStock), Period::Month1));
    s.apply(AppAction::ExitChart);
    assert!(matches!(s.screen, AppScreen::Main));
}

#[test]
fn test_chart_data_loaded_sets_cursor_to_last() {
    let mut s = make_state();
    s.screen = AppScreen::Chart(ChartState::new(Symbol::new("AAPL", Market::USStock), Period::Month1));
    s.apply(AppAction::ChartDataLoaded(vec![ohlcv(105), ohlcv(110)]));
    if let AppScreen::Chart(ref cs) = s.screen {
        assert_eq!(cs.cursor, 1);
        assert!(!cs.loading);
        assert_eq!(cs.data.len(), 2);
    } else {
        panic!("expected Chart screen");
    }
}

#[test]
fn test_chart_cursor_clamps_at_boundaries() {
    let mut s = make_state();
    s.screen = chart_with(vec![ohlcv(105), ohlcv(105)]);
    s.apply(AppAction::ChartMoveCursor(-1));
    if let AppScreen::Chart(ref cs) = s.screen {
        assert_eq!(cs.cursor, 0);
    }
    s.apply(AppAction::ChartMoveCursor(1));
    s.apply(AppAction::ChartMoveCursor(1));
    if let AppScreen::Chart(ref cs) = s.screen {
        assert_eq!(cs.cursor, 1);
    }
}

#[test]
fn test_chart_zoom_clamps() {
    let mut s = make_state();
    s.screen = AppScreen::Chart(ChartState::new(Symbol::new("AAPL", Market::USStock), Period::Month1));
    s.apply(AppAction::ChartZoom(false));
    s.apply(AppAction::ChartZoom(false));
    s.apply(AppAction::ChartZoom(false));
    if let AppScreen::Chart(ref cs) = s.screen {
        assert_eq!(cs.bar_width, 2);
    }
    for _ in 0..10 {
        s.apply(AppAction::ChartZoom(true));
    }
    if let AppScreen::Chart(ref cs) = s.screen {
        assert_eq!(cs.bar_width, 8);
    }
}

#[test]
fn test_chart_change_period_resets_data() {
    let mut s = make_state();
    s.screen = chart_with(vec![ohlcv(105)]);
    s.apply(AppAction::ChartChangePeriod(Period::Year1));
    if let AppScreen::Chart(ref cs) = s.screen {
        assert_eq!(cs.period, Period::Year1);
        assert!(cs.loading);
        assert!(cs.data.is_empty());
    }
}

#[test]
fn chart_fetch_failure_is_shown() {
    let mut s = make_state();
    s.screen = AppScreen::Chart(ChartState::new(Symbol::new("AAPL", Market::USStock), Period::Month1));
    s.apply(AppAction::ChartFetchFailed("boom".into()));
    if let AppScreen::Chart(ref cs) = s.screen {
        assert!(!cs.loading);
        assert_eq!(cs.error.as_deref(), Some("boom"));
        assert!(cs.current_bar().is_none());
    }
}

#[test]
fn test_start_backtest_sets_screen() {
    let mut s = make_state();
    s.apply(AppAction::StartBacktest(Symbol::new("AAPL", Market::USStock)));
    assert!(matches!(s.screen, AppScreen::Backtest(_)));
}

#[test]
fn test_exit_backtest_returns_to_main() {
    let mut s = make_state();
    s.apply(AppAction::StartBacktest(Symbol::new("AAPL", Market::USStock)));
    s.apply(AppAction::ExitBacktest);
    assert!(matches!(s.screen, AppScreen::Main));
}

#[test]
fn test_backtest_next_prev_strategy_wraps() {
    let mut s = make_state();
    s.apply(AppAction::StartBacktest(Symbol::new("AAPL", Market::USStock)));
    let idx = |s: &State| match s.screen {
        AppScreen::Backtest(ref bs) => bs.strategy_idx,
        _ => panic!("expected Backtest screen"),
    };
    assert_eq!(idx(&s), 0);
    s.apply(AppAction::BacktestNextStrategy);
    assert_eq!(idx(&s), 1);
    s.apply(AppAction::BacktestNextStrategy);
    assert_eq!(idx(&s), 2);
    s.apply(AppAction::BacktestNextStrategy);
    assert_eq!(idx(&s), 0);
    s.apply(AppAction::BacktestPrevStrategy);
    assert_eq!(idx(&s), 2);
}

#[test]
fn test_run_backtest_sets_running_status() {
    let mut s = make_state();
    s.apply(AppAction::StartBacktest(Symbol::new("AAPL", Market::USStock)));
    s.apply(AppAction::RunBacktest);
    if let AppScreen::Backtest(ref bs) = s.screen {
        assert!(matches!(bs.status, BacktestStatus::Running));
    }
}

#[test]
fn backtest_screen_defaults_and_strategy_names() {
    let bs = BacktestState::new(Symbol::new("AAPL", Market::USStock));
    assert_eq!(bs.config.initial_cash, Dec::new(100000, 0));
    assert_eq!(bs.config.end_date - bs.config.start_date, 365);
    assert_eq!(BacktestState::strategy_count(), 3);
    assert_eq!(bs.strategy_name(), "双均线穿越 (MA5×MA20)");
}

#[test]
fn test_quotes_updated_propagates_name() {
    let mut s = State { watchlist: vec![Symbol::new("sh600519", Market::AShare)], ..Default::default() };
    s.apply(AppAction::QuotesUpdated(vec![quote("sh600519", Some("贵州茅台"))]));
    assert_eq!(s.watchlist[0].name, Some("贵州茅台".to_string()));
    s.apply(AppAction::QuotesUpdated(vec![quote("sh600519", None)]));
    assert_eq!(s.watchlist[0].name, Some("贵州茅台".to_string()), "None update must not overwrite cached name");
    assert!(s.last_updated.is_some());
    assert!(s.quotes.contains_key("sh600519"));
}

#[test]
fn test_names_resolved_fills_missing_names() {
    let mut s = State {
        watchlist: vec![
            Symbol::new("sh600519", Market::AShare),
            Symbol::new("000001", Market::AShare).with_name("已缓存"),
            Symbol::new("AAPL", Market::USStock),
        ],
        ..Default::default()
    };
    s.apply(AppAction::NamesResolved(vec![
        ("sh600519".to_string(), "贵州茅台".to_string()),
        ("000001".to_string(), "平安银行".to_string()),
        ("MSFT".to_string(), "Microsoft".to_string()),
    ]));
    assert_eq!(s.watchlist[0].name, Some("贵州茅台".to_string()));
    assert_eq!(s.watchlist[1].name, Some("已缓存".to_string()), "existing name must not be overwritten");
    assert_eq!(s.watchlist[2].name, None, "unmatched code is ignored");
}

fn chart_state(period: Period) -> State {
    let mut s = State::default();
    s.screen = AppScreen::Chart(ChartState::new(Symbol::new("AAPL", Market::USStock), period));
    if let AppScreen::Chart(ref mut cs) = s.screen {
        cs.loading = false;
    }
    s
}

#[test]
fn test_chart_load_more_history_sets_extended_flag() {
    let mut s = chart_state(Period::Month1);
    s.apply(AppAction::ChartLoadMoreHistory);
    if let AppScreen::Chart(ref cs) = s.screen {
        assert_eq!(cs.period, Period::Month1);
        assert!(cs.history_extended);
        assert!(cs.loading);
        assert!(cs.data.is_empty());
        assert_eq!(cs.cursor, 0);
    } else {
        panic!("Expected Chart screen");
    }
}

#[test]
fn test_chart_load_more_history_noop_for_day1() {
    let mut s = chart_state(Period::Day1);
    s.apply(AppAction::ChartLoadMoreHistory);
    if let AppScreen::Chart(ref cs) = s.screen {
        assert_eq!(cs.period, Period::Day1);
        assert!(!cs.history_extended, "Day1 should not set history_extended");
        assert!(!cs.loading, "no-op: loading should remain false");
    } else {
        panic!("Expected Chart screen");
    }
}

#[test]
fn test_chart_load_more_history_noop_when_already_extended() {
    let mut s = chart_state(Period::Month1);
    if let AppScreen::Chart(ref mut cs) = s.screen {
        cs.history_extended = true;
    }
    s.apply(AppAction::ChartLoadMoreHistory);
    if let AppScreen::Chart(ref cs) = s.screen {
        assert!(!cs.loading, "no-op: should not trigger another fetch");
    } else {
        panic!("Expected Chart screen");
    }
}

#[test]
fn test_chart_change_period_resets_history_extended() {
    let mut s = chart_state(Period::Month1);
    if let AppScreen::Chart(ref mut cs) = s.screen {
        cs.history_extended = true;
    }
    s.apply(AppAction::ChartChangePeriod(Period::Year1));
    if let AppScreen::Chart(ref cs) = s.screen {
        assert_eq!(cs.period, Period::Year1);
        assert!(!cs.history_extended, "ChartChangePeriod must reset history_extended");
    } else {
        panic!("Expected Chart screen");
    }
}

#[test]
fn test_chart_load_more_history_noop_when_already_at_max_extended() {
    let mut s = chart_state(Period::Year5);
    if let AppScreen::Chart(ref mut cs) = s.screen {
        cs.history_extended = true;
    }
    s.apply(AppAction::ChartLoadMoreHistory);
    if let AppScreen::Chart(ref cs) = s.screen {
        assert_eq!(cs.period, Period::Year5);
        assert!(!cs.loading, "second load-more press should be no-op");
    } else {
        panic!("Expected Chart screen");
    }
}

#[test]
fn test_chart_data_loaded_load_more_keeps_cursor_at_start() {
    let mut s = chart_state(Period::Month1);
    s.apply(AppAction::ChartLoadMoreHistory);
    s.apply(AppAction::ChartDataLoaded(make_dummy_ohlcv(50)));
    if let AppScreen::Chart(ref cs) = s.screen {
        assert_eq!(cs.cursor, 0, "load-more should leave cursor at oldest bar");
        assert!(!cs.loading);
    } else {
        panic!("Expected Chart screen");
    }
}

#[test]
fn test_chart_data_loaded_normal_sets_cursor_to_newest() {
    let mut s = State::default();
    s.screen = AppScreen::Chart(ChartState::new(Symbol::new("AAPL", Market::USStock), Period::Month1));
    s.apply(AppAction::ChartDataLoaded(make_dummy_ohlcv(30)));
    if let AppScreen::Chart(ref cs) = s.screen {
        assert_eq!(cs.cursor, 29, "normal load should place cursor at newest bar");
    } else {
        panic!("Expected Chart screen");
    }
}

#[test]
fn test_search_select_next_wraps() {
    let mut s = State::default();
    s.is_add_active = true;
    s.search_results = vec![suggestion("600519", "贵州茅台"), suggestion("000001", "平安银行")];
    s.search_selected = 1;
    s.apply(AppAction::SearchSelectNext);
    assert_eq!(s.search_selected, 0);
}

#[test]
fn test_search_select_prev_wraps() {
    let mut s = State::default();
    s.is_add_active = true;
    s.search_results = vec![suggestion("600519", "A"), suggestion("000001", "B")];
    s.search_selected = 0;
    s.apply(AppAction::SearchSelectPrev);
    assert_eq!(s.search_selected, 1);
}

#[test]
fn test_confirm_search_selection_adds_to_watchlist() {
    let mut s = State::default();
    s.is_add_active = true;
    s.search_results = vec![suggestion("600519", "贵州茅台")];
    s.search_selected = 0;
    s.apply(AppAction::ConfirmSearchSelection);
    assert!(!s.is_add_active);
    assert!(s.search_results.is_empty());
    let added = s.watchlist.last().expect("symbol added");
    assert_eq!(added.code, "600519");
    assert_eq!(added.name.as_deref(), Some("贵州茅台"));
}

#[test]
fn confirm_search_selection_skips_known_codes() {
    let mut s = State { watchlist: vec![Symbol::new("600519", Market::AShare)], ..Default::default() };
    s.is_add_active = true;
    s.search_results = vec![suggestion("600519", "贵州茅台")];
    s.apply(AppAction::ConfirmSearchSelection);
    assert_eq!(s.watchlist.len(), 1);
}

#[test]
fn test_search_generation_increments_on_input() {
    let mut s = State::default();
    s.is_add_active = true;
    let gen_before = s.search_generation;
    s.apply(AppAction::UpdateAddInput('a'));
    assert_eq!(s.search_generation, gen_before + 1);
}

#[test]
fn search_generation_wraps_at_the_top() {
    let mut s = State::default();
    s.is_add_active = true;
    s.search_generation = u64::MAX;
    s.apply(AppAction::BackspaceAdd);
    assert_eq!(s.search_generation, 0);
}

#[test]
fn test_stale_search_results_discarded() {
    let mut s = State::default();
    s.is_add_active = true;
    s.search_generation = 5;
    s.apply(AppAction::SearchResultsUpdated(3, vec![suggestion("STALE", "Stale")]));
    assert!(s.search_results.is_empty());
    s.apply(AppAction::SearchResultsUpdated(5, vec![suggestion("600519", "茅台")]));
    assert_eq!(s.search_results.len(), 1);
}

#[test]
fn test_settings_state_toggle_provider() {
    let mut state = State::default();
    state.apply(AppAction::OpenSettings);
    assert!(matches!(state.screen, AppScreen::Settings(_)));
    state.apply(AppAction::SettingsSelectProvider(DataSourceKind::AkShare));
    if let AppScreen::Settings(ref ss) = state.screen {
        assert_eq!(ss.provider, DataSourceKind::AkShare);
    } else {
        panic!("expected Settings screen");
    }
}

#[test]
fn test_settings_save_applies_and_closes() {
    let mut state = State::default();
    state.apply(AppAction::OpenSettings);
    state.apply(AppAction::SettingsSelectProvider(DataSourceKind::AkShare));
    state.apply(AppAction::SettingsSaved);
    assert!(matches!(state.screen, AppScreen::Main));
    assert_eq!(state.data_source, DataSourceKind::AkShare);
}

#[test]
fn test_settings_save_ignored_outside_settings_screen() {
    let mut state = State::default();
    state.screen = AppScreen::Chart(ChartState::new(Symbol::new("AAPL", Market::USStock), Period::Month1));
    state.apply(AppAction::SettingsSaved);
    assert!(matches!(state.screen, AppScreen::Chart(_)));
    assert_eq!(state.data_source, DataSourceKind::Zhitu);
}

#[test]
fn test_settings_exit_ignored_outside_settings_screen() {
    let mut state = State::default();
    state.screen = AppScreen::Chart(ChartState::new(Symbol::new("AAPL", Market::USStock), Period::Month1));
    state.apply(AppAction::ExitSettings);
    assert!(matches!(state.screen, AppScreen::Chart(_)));
}

#[test]
fn test_settings_cancel_closes_screen() {
    let mut state = State::default();
    state.apply(AppAction::OpenSettings);
    state.apply(AppAction::SettingsSelectProvider(DataSourceKind::AkShare));
    state.apply(AppAction::ExitSettings);
    assert!(matches!(state.screen, AppScreen::Main));
    assert_eq!(state.data_source, DataSourceKind::Zhitu);
    assert_eq!(state.akshare_url, "http://127.0.0.1:8080");
}

fn focused_field(state: &State) -> (usize, bool) {
    match state.screen {
        AppScreen::Settings(ref ss) => (ss.focused_field, ss.editing_url),
        _ => panic!("expected Settings screen"),
    }
}

#[test]
fn test_settings_nav() {
    let mut state = State::default();
    state.apply(AppAction::OpenSettings);
    assert_eq!(focused_field(&state).0, 0);
    state.apply(AppAction::SettingsNavDown);
    assert_eq!(focused_field(&state).0, 1);
    state.apply(AppAction::SettingsNavUp);
    assert_eq!(focused_field(&state), (0, false));
}

#[test]
fn settings_cursor_stops_at_the_ends() {
    let mut ss = SettingsState::new(DataSourceKind::Sina, "u".to_string(), Language::Zh);
    ss.move_up();
    assert_eq!(ss.focused_field, 0);
    ss.move_down();
    ss.move_down();
    ss.move_down();
    assert_eq!(ss.focused_field, 2);
    assert_eq!(SettingsState::field_count(), 3);
}

#[test]
fn test_settings_toggle_url_edit_noop_on_provider_field() {
    let mut state = State::default();
    state.apply(AppAction::OpenSettings);
    state.apply(AppAction::SettingsToggleUrlEdit);
    assert!(!focused_field(&state).1);
}

#[test]
fn test_settings_url_editing() {
    let mut state = State::default();
    state.apply(AppAction::OpenSettings);
    state.apply(AppAction::SettingsNavDown);
    state.apply(AppAction::SettingsToggleUrlEdit);
    state.apply(AppAction::SettingsEditUrlBackspace);
    state.apply(AppAction::SettingsEditUrlChar('X'));
    if let AppScreen::Settings(ref ss) = state.screen {
        assert!(ss.editing_url);
        assert!(ss.akshare_url.ends_with('X'));
        assert_eq!(ss.akshare_url, "http://127.0.0.1:808X");
    } else {
        panic!("expected Settings screen");
    }
}

#[test]
fn test_settings_nav_stops_url_editing_when_leaving_url_field() {
    let mut state = State::default();
    state.apply(AppAction::OpenSettings);
    state.apply(AppAction::SettingsNavDown);
    state.apply(AppAction::SettingsToggleUrlEdit);
    state.apply(AppAction::SettingsNavUp);
    state.apply(AppAction::SettingsEditUrlChar('X'));
    if let AppScreen::Settings(ref ss) = state.screen {
        assert_eq!(ss.focused_field, 0);
        assert!(!ss.editing_url);
        assert_eq!(ss.akshare_url, "http://127.0.0.1:8080");
    } else {
        panic!("expected Settings screen");
    }
}

#[test]
fn test_request_quit_sets_confirm_flag() {
    let mut s = State::default();
    assert!(!s.confirm_quit);
    s.apply(AppAction::RequestQuit);
    assert!(s.confirm_quit);
    assert!(!s.should_quit);
}

#[test]
fn test_cancel_quit_clears_flag() {
    let mut s = State::default();
    s.confirm_quit = true;
    s.apply(AppAction::CancelQuit);
    assert!(!s.confirm_quit);
}

#[test]
fn test_toggle_quit_button_flips_focus() {
    let mut s = State::default();
    assert!(!s.confirm_quit_focused);
    s.apply(AppAction::ToggleQuitButton);
    assert!(s.confirm_quit_focused);
    s.apply(AppAction::ToggleQuitButton);
    assert!(!s.confirm_quit_focused);
}

#[test]
fn test_state_strings_returns_zh_by_default() {
    let s = State::default();
    assert_eq!(s.strings().watchlist_title, Strings::zh().watchlist_title);
}

#[test]
fn test_state_strings_returns_en_when_set() {
    let mut s = State::default();
    s.language = Language::En;
    assert_eq!(s.strings().watchlist_title, Strings::en().watchlist_title);
}

#[test]
fn test_settings_save_applies_language() {
    let mut s = State::default();
    s.apply(AppAction::OpenSettings);
    s.apply(AppAction::SettingsSelectLanguage(Language::En));
    s.apply(AppAction::SettingsSaved);
    assert_eq!(s.language, Language::En);
}

#[test]
fn status_message_and_refresh() {
    let mut s = State::default();
    s.apply(AppAction::StatusMessage("hi".into()));
    assert_eq!(s.status_message.as_deref(), Some("hi"));
    s.apply(AppAction::Refresh);
    assert!(s.status_message.is_none());
}

#[test]
fn data_source_labels() {
    assert_eq!(DataSourceKind::Sina.label(), "新浪 (Sina)");
    assert_eq!(DataSourceKind::Zhitu.label(), "ZhituAPI");
    assert_eq!(DataSourceKind::default(), DataSourceKind::Sina);
}
