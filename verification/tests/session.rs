use fa::backtest::engine::BacktestConfig;
use fa::data::router::{
    backoff, ohlcv_next_step, providers_for, quote_after_failure, quote_first_step, QuoteAttempts, RouterStep, Wait,
    FIRST_DELAY_MS, MAX_RETRIES,
};
use fa::data::sina::StockSuggestion;
use fa::error::DataError;
use fa::market::Market;
use fa::period::Period;
use fa::portfolio::Portfolio;
use fa::session::{build_initial_state, dispatch, match_symbol_name, provider_key, router_config_after_action, source_supports};
use fa::symbol::Symbol;
use fa::tui::app::{AppAction, AppScreen, ChartState, DataSourceKind, State};
use fa::tui::i18n::Language;
use fa::tui::view::visible_window;

fn empty_portfolio() -> Portfolio {
    Portfolio { positions: vec![] }
}

#[test]
fn build_initial_state_applies_persisted_data_source_config() {
    let sym = Symbol::new("600519", Market::AShare);
    let state = build_initial_state(
        Some("akshare".to_string()),
        Some("http://127.0.0.1:9000".to_string()),
        None,
        vec![sym],
        empty_portfolio(),
    );
    assert_eq!(state.data_source, DataSourceKind::AkShare);
    assert_eq!(state.akshare_url, "http://127.0.0.1:9000");
    assert_eq!(state.watchlist.len(), 1);
    assert_eq!(state.watchlist[0].code, "600519");
}

#[test]
fn build_initial_state_defaults_to_zhitu_local_url_and_chinese() {
    let state = build_initial_state(None, None, Some("fr".to_string()), vec![], empty_portfolio());
    assert_eq!(state.data_source, DataSourceKind::Zhitu);
    assert_eq!(state.akshare_url, "http://127.0.0.1:8080");
    assert_eq!(state.language, Language::Zh);
    let state = build_initial_state(Some("sina".to_string()), None, Some("en".to_string()), vec![], empty_portfolio());
    assert_eq!(state.data_source, DataSourceKind::Sina);
    assert_eq!(state.language, Language::En);
}

#[test]
fn settings_saved_outside_settings_screen_does_not_rebuild_router() {
    let mut state = State::default();
    let router_config = router_config_after_action(&mut state, AppAction::SettingsSaved);
    assert!(router_config.is_none());
    assert_eq!(state.data_source, DataSourceKind::Zhitu);
}

#[test]
fn settings_saved_on_settings_screen_rebuilds_router() {
    let mut state = State::default();
    router_config_after_action(&mut state, AppAction::OpenSettings);
    router_config_after_action(&mut state, AppAction::SettingsSelectProvider(DataSourceKind::Sina));
    let cfg = router_config_after_action(&mut state, AppAction::SettingsSaved);
    assert_eq!(cfg, Some((DataSourceKind::Sina, "http://127.0.0.1:8080".to_string())));
    assert_eq!(state.data_source, DataSourceKind::Sina);
    assert!(matches!(state.screen, AppScreen::Main));
}

#[test]
fn build_router_sina_only_supports_a_share() {
    assert!(source_supports(DataSourceKind::Sina, "http://127.0.0.1:8080", "test-token", &Market::AShare));
    assert!(!source_supports(DataSourceKind::Sina, "http://127.0.0.1:8080", "test-token", &Market::USStock));
}

#[test]
fn shared_router_can_be_rebuilt_for_different_data_sources() {
    let mut kind = DataSourceKind::Sina;
    assert!(source_supports(kind, "http://127.0.0.1:8080", "test-token", &Market::AShare));
    kind = DataSourceKind::Zhitu;
    assert!(source_supports(kind, "http://127.0.0.1:9999", "test-token", &Market::AShare));
    assert!(!source_supports(kind, "http://127.0.0.1:9999", "test-token", &Market::USStock));
}

#[test]
fn provider_keys_are_the_stored_names() {
    assert_eq!(provider_key(DataSourceKind::Sina), "sina");
    assert_eq!(provider_key(DataSourceKind::AkShare), "akshare");
    assert_eq!(provider_key(DataSourceKind::Zhitu), "zhitu");
}

#[test]
fn dispatch_enter_chart_fetches_bars() {
    let mut state = State::default();
    let sym = Symbol::new("600519", Market::AShare);
    let fx = dispatch(&mut state, AppAction::EnterChart(sym));
    let (s, p, extended) = fx.fetch_ohlcv.expect("a fetch");
    assert_eq!(s.code, "600519");
    assert_eq!(p, Period::Month1);
    assert!(!extended);
    assert!(fx.run_backtest.is_none());
    assert!(fx.search.is_none());
    assert!(!fx.should_quit);
}

#[test]
fn dispatch_add_input_searches_with_generation() {
    let mut state = State::default();
    dispatch(&mut state, AppAction::StartAdd);
    let fx = dispatch(&mut state, AppAction::UpdateAddInput('6'));
    let (q, g) = fx.search.expect("a search");
    assert_eq!(q, "6");
    assert_eq!(g, state.search_generation);
}

#[test]
fn dispatch_confirm_add_reports_added_symbol_and_delete_reports_removed() {
    let mut state = State::default();
    dispatch(&mut state, AppAction::StartAdd);
    for c in "600519".chars() {
        dispatch(&mut state, AppAction::UpdateAddInput(c));
    }
    let fx = dispatch(&mut state, AppAction::ConfirmAdd);
    let added = fx.added.expect("added");
    assert_eq!(added.code, "600519");
    let fx = dispatch(&mut state, AppAction::DeleteSelected);
    assert_eq!(fx.removed.expect("removed").code, "600519");
    assert!(state.watchlist.is_empty());
}

#[test]
fn dispatch_run_backtest_starts_a_run_once() {
    let mut state = State::default();
    dispatch(&mut state, AppAction::StartBacktest(Symbol::new("600519", Market::AShare)));
    let fx = dispatch(&mut state, AppAction::RunBacktest);
    let (s, idx, cfg) = fx.run_backtest.expect("a run");
    assert_eq!(s.code, "600519");
    assert_eq!(idx, 0);
    let _: BacktestConfig = cfg;
    let fx = dispatch(&mut state, AppAction::RunBacktest);
    assert!(fx.run_backtest.is_none());
}

#[test]
fn dispatch_quit_sets_should_quit() {
    let mut state = State::default();
    let fx = dispatch(&mut state, AppAction::Quit);
    assert!(fx.should_quit);
}

#[test]
fn match_symbol_name_uses_bare_or_full_code() {
    let results = vec![
        StockSuggestion { code: "000001".into(), name: "Ping An".into() },
        StockSuggestion { code: "600519".into(), name: "Moutai".into() },
    ];
    assert_eq!(match_symbol_name(&Symbol::new("sh600519", Market::AShare), &results), Some("Moutai".to_string()));
    assert_eq!(match_symbol_name(&Symbol::new("600519", Market::AShare), &results), Some("Moutai".to_string()));
    assert_eq!(match_symbol_name(&Symbol::new("300750", Market::AShare), &results), None);
}

#[test]
fn visible_window_centres_cursor_and_stays_in_data() {
    let mut cs = ChartState::new(Symbol::new("AAPL", Market::USStock), Period::Day1);
    assert_eq!(visible_window(&cs, 30), (0, 0));
    cs.data = (0..100)
        .map(|_| fa::ohlcv::OHLCV {
            symbol: Symbol::new("AAPL", Market::USStock),
            timestamp: 0,
            open: fa::decimal::Dec::zero(),
            high: fa::decimal::Dec::zero(),
            low: fa::decimal::Dec::zero(),
            close: fa::decimal::Dec::zero(),
            volume: 0,
        })
        .collect();
    cs.bar_width = 3;
    cs.cursor = 50;
    // 30 columns of 3 give 10 candles, the cursor five from the window's end.
    assert_eq!(visible_window(&cs, 30), (46, 56));
    cs.cursor = 99;
    assert_eq!(visible_window(&cs, 30), (90, 100));
    cs.cursor = 0;
    assert_eq!(visible_window(&cs, 30), (0, 10));
}

#[test]
fn providers_for_keeps_supporting_indices_in_order() {
    assert_eq!(providers_for(&vec![false, true, false, true]), vec![1, 3]);
    assert!(providers_for(&vec![false]).is_empty());
}

#[test]
fn quote_router_retries_then_falls_back_then_fails() {
    let (step, st) = quote_first_step(2, MAX_RETRIES, &Market::AShare);
    assert!(matches!(step, RouterStep::Try { candidate: 0, wait: None }));
    assert_eq!(st.delay_ms, FIRST_DELAY_MS);
    let (step, st) = quote_after_failure(st, 2, MAX_RETRIES, DataError::Network("x".into()));
    assert!(matches!(step, RouterStep::Try { candidate: 0, wait: Some(Wait::Millis(100)) }));
    let (step, st) = quote_after_failure(st, 2, MAX_RETRIES, DataError::RateLimited { retry_after: 7 });
    assert!(matches!(step, RouterStep::Try { candidate: 0, wait: Some(Wait::Seconds(7)) }));
    assert_eq!(st.delay_ms, 200);
    let (step, st) = quote_after_failure(st, 2, MAX_RETRIES, DataError::Network("y".into()));
    assert!(matches!(step, RouterStep::Try { candidate: 1, wait: None }));
    assert_eq!(st, QuoteAttempts { candidate: 1, attempt: 0, delay_ms: 100 });
    let (_, st) = quote_after_failure(st, 2, MAX_RETRIES, DataError::Network("a".into()));
    let (_, st) = quote_after_failure(st, 2, MAX_RETRIES, DataError::Network("b".into()));
    let (step, _) = quote_after_failure(st, 2, MAX_RETRIES, DataError::Parse("last".into()));
    assert!(matches!(step, RouterStep::Fail(DataError::Parse(m)) if m == "last"));
}

#[test]
fn test_router_no_provider_for_market_fails_up_front() {
    let (step, _) = quote_first_step(0, MAX_RETRIES, &Market::USStock);
    assert!(matches!(step, RouterStep::Fail(DataError::MarketNotSupported { market }) if market == "US"));
}

#[test]
fn router_with_one_attempt_falls_back_at_once() {
    let (_, st) = quote_first_step(2, 1, &Market::USStock);
    let (step, _) = quote_after_failure(st, 2, 1, DataError::Network("network error".into()));
    assert!(matches!(step, RouterStep::Try { candidate: 1, wait: None }));
}

#[test]
fn ohlcv_router_tries_each_candidate_once() {
    assert!(matches!(ohlcv_next_step(None, 2), RouterStep::Try { candidate: 0, wait: None }));
    assert!(matches!(ohlcv_next_step(Some(0), 2), RouterStep::Try { candidate: 1, wait: None }));
    assert!(matches!(
        ohlcv_next_step(Some(1), 2),
        RouterStep::Fail(DataError::Network(m)) if m == "all providers failed for OHLCV"
    ));
    assert!(matches!(ohlcv_next_step(None, 0), RouterStep::Fail(_)));
}

#[test]
fn backoff_doubles_and_stops_after_last_attempt() {
    assert_eq!(backoff(0, 3, &DataError::Network("n".into()), 100), (Some(Wait::Millis(100)), 200));
    assert_eq!(backoff(2, 3, &DataError::Network("n".into()), 400), (None, 400));
}
