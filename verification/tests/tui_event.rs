use fa::market::Market;
use fa::period::Period;
use fa::symbol::Symbol;
use fa::tui::app::{AppAction, AppScreen, BacktestState, ChartState, State};
use fa::tui::event::{EventHandler, KeyCode, MOD_CONTROL, MOD_NONE, MOD_SHIFT};

#[test]
fn test_map_quit() {
    assert!(matches!(EventHandler::map_key_main(KeyCode::Char('q'), MOD_NONE), Some(AppAction::Quit)));
    assert!(matches!(EventHandler::map_key_main(KeyCode::Char('c'), MOD_CONTROL), Some(AppAction::Quit)));
}

#[test]
fn test_map_navigation() {
    assert!(matches!(EventHandler::map_key_main(KeyCode::Tab, MOD_NONE), Some(AppAction::NextPanel)));
    assert!(matches!(EventHandler::map_key_main(KeyCode::Up, MOD_NONE), Some(AppAction::MoveUp)));
    assert!(matches!(EventHandler::map_key_main(KeyCode::Down, MOD_NONE), Some(AppAction::MoveDown)));
}

#[test]
fn test_map_search() {
    assert!(matches!(EventHandler::map_key_main(KeyCode::Char('/'), MOD_NONE), Some(AppAction::StartSearch)));
    assert!(matches!(EventHandler::map_key_main(KeyCode::Esc, MOD_NONE), Some(AppAction::CancelSearch)));
}

#[test]
fn test_unknown_key_returns_none() {
    assert!(EventHandler::map_key_main(KeyCode::F(12), MOD_NONE).is_none());
}

#[test]
fn test_map_key_chart_navigation() {
    assert!(matches!(EventHandler::map_key_chart(KeyCode::Left, MOD_NONE), Some(AppAction::ChartMoveCursor(-1))));
    assert!(matches!(EventHandler::map_key_chart(KeyCode::Right, MOD_NONE), Some(AppAction::ChartMoveCursor(1))));
}

#[test]
fn test_map_key_chart_zoom() {
    assert!(matches!(EventHandler::map_key_chart(KeyCode::Char('['), MOD_NONE), Some(AppAction::ChartZoom(false))));
    assert!(matches!(EventHandler::map_key_chart(KeyCode::Char(']'), MOD_NONE), Some(AppAction::ChartZoom(true))));
}

#[test]
fn test_map_key_chart_period() {
    assert!(matches!(
        EventHandler::map_key_chart(KeyCode::Char('1'), MOD_NONE),
        Some(AppAction::ChartChangePeriod(Period::Day1))
    ));
    assert!(matches!(
        EventHandler::map_key_chart(KeyCode::Char('5'), MOD_NONE),
        Some(AppAction::ChartChangePeriod(Period::Week1))
    ));
    assert!(matches!(
        EventHandler::map_key_chart(KeyCode::Char('m'), MOD_NONE),
        Some(AppAction::ChartChangePeriod(Period::Month1))
    ));
    assert!(matches!(
        EventHandler::map_key_chart(KeyCode::Char('q'), MOD_NONE),
        Some(AppAction::ChartChangePeriod(Period::Month3))
    ));
    assert!(matches!(
        EventHandler::map_key_chart(KeyCode::Char('y'), MOD_NONE),
        Some(AppAction::ChartChangePeriod(Period::Year1))
    ));
}

#[test]
fn test_map_key_chart_esc_exits() {
    assert!(matches!(EventHandler::map_key_chart(KeyCode::Esc, MOD_NONE), Some(AppAction::ExitChart)));
}

#[test]
fn test_map_key_add_routing() {
    assert!(matches!(EventHandler::map_key_add(KeyCode::Enter, MOD_NONE), Some(AppAction::ConfirmAdd)));
    assert!(matches!(EventHandler::map_key_add(KeyCode::Esc, MOD_NONE), Some(AppAction::CancelAdd)));
    assert!(matches!(EventHandler::map_key_add(KeyCode::Backspace, MOD_NONE), Some(AppAction::BackspaceAdd)));
    assert!(matches!(
        EventHandler::map_key_add(KeyCode::Char('A'), MOD_NONE),
        Some(AppAction::UpdateAddInput('A'))
    ));
    assert!(matches!(
        EventHandler::map_key_add(KeyCode::Char('a'), MOD_SHIFT),
        Some(AppAction::UpdateAddInput('a'))
    ));
}

#[test]
fn test_resolve_action_starts_add_when_idle() {
    let state = State::default();
    assert!(matches!(
        EventHandler::resolve_action(&state, KeyCode::Char('a'), MOD_NONE),
        Some(AppAction::StartAdd)
    ));
}

#[test]
fn test_resolve_action_keeps_search_input_when_search_active() {
    let mut state = State::default();
    state.is_search_active = true;
    assert!(matches!(
        EventHandler::resolve_action(&state, KeyCode::Char('a'), MOD_NONE),
        Some(AppAction::UpdateSearchInput('a'))
    ));
}

#[test]
fn test_resolve_action_routes_chars_to_add_when_add_active() {
    let mut state = State::default();
    state.is_add_active = true;
    assert!(matches!(
        EventHandler::resolve_action(&state, KeyCode::Char('x'), MOD_NONE),
        Some(AppAction::UpdateAddInput('x'))
    ));
}

#[test]
fn test_resolve_action_enters_chart_for_selected_symbol() {
    let mut state = State::default();
    state.watchlist.push(Symbol::new("AAPL", Market::USStock));
    assert!(matches!(
        EventHandler::resolve_action(&state, KeyCode::Enter, MOD_NONE),
        Some(AppAction::EnterChart(sym)) if sym.code == "AAPL"
    ));
}

#[test]
fn test_resolve_action_ctrlc_always_quits_even_in_add_mode() {
    let mut state = State::default();
    state.is_add_active = true;
    assert!(matches!(
        EventHandler::resolve_action(&state, KeyCode::Char('c'), MOD_CONTROL),
        Some(AppAction::Quit)
    ));
}

#[test]
fn test_resolve_action_ctrlc_quits_in_chart_mode() {
    let mut state = State::default();
    let sym = Symbol::new("AAPL", Market::USStock);
    state.screen = AppScreen::Chart(ChartState::new(sym, Period::Month1));
    assert!(matches!(
        EventHandler::resolve_action(&state, KeyCode::Char('c'), MOD_CONTROL),
        Some(AppAction::Quit)
    ));
}

#[test]
fn test_map_key_chart_unknown_key_returns_none() {
    assert!(EventHandler::map_key_chart(KeyCode::F(12), MOD_NONE).is_none());
    assert!(EventHandler::map_key_chart(KeyCode::Tab, MOD_NONE).is_none());
}

#[test]
fn test_map_key_backtest_run() {
    assert!(matches!(EventHandler::map_key_backtest(KeyCode::Char('r'), MOD_NONE), Some(AppAction::RunBacktest)));
}

#[test]
fn test_map_key_backtest_esc_exits() {
    assert!(matches!(EventHandler::map_key_backtest(KeyCode::Esc, MOD_NONE), Some(AppAction::ExitBacktest)));
}

#[test]
fn test_map_key_backtest_scroll() {
    assert!(matches!(EventHandler::map_key_backtest(KeyCode::Up, MOD_NONE), Some(AppAction::BacktestScrollUp)));
    assert!(matches!(EventHandler::map_key_backtest(KeyCode::Down, MOD_NONE), Some(AppAction::BacktestScrollDown)));
}

#[test]
fn test_b_key_starts_backtest_when_symbol_selected() {
    let mut state = State::default();
    state.watchlist.push(Symbol::new("AAPL", Market::USStock));
    let action = EventHandler::resolve_action(&state, KeyCode::Char('b'), MOD_NONE);
    assert!(matches!(action, Some(AppAction::StartBacktest(_))));
}

#[test]
fn test_resolve_backtest_screen_routes_to_map_key_backtest() {
    let mut state = State::default();
    let sym = Symbol::new("AAPL", Market::USStock);
    state.screen = AppScreen::Backtest(BacktestState::new(sym));
    let action = EventHandler::resolve_action(&state, KeyCode::Char('r'), MOD_NONE);
    assert!(matches!(action, Some(AppAction::RunBacktest)));
}

#[test]
fn resolve_action_ignores_enter_with_empty_watchlist() {
    let state = State::default();
    assert!(EventHandler::resolve_action(&state, KeyCode::Enter, MOD_NONE).is_none());
}

#[test]
fn map_key_main_control_letter_other_than_c_is_ignored() {
    assert!(EventHandler::map_key_main(KeyCode::Char('x'), MOD_CONTROL).is_none());
}

#[test]
fn chart_function_keys_pick_minute_periods() {
    let expected = [Period::Min1, Period::Min5, Period::Min15, Period::Min30, Period::Min60];
    for (i, p) in expected.iter().enumerate() {
        match EventHandler::map_key_chart(KeyCode::F(i as u8 + 1), MOD_NONE) {
            Some(AppAction::ChartChangePeriod(q)) => assert_eq!(q, *p),
            _ => panic!("F{} is not a period key", i + 1),
        }
    }
    assert!(EventHandler::map_key_chart(KeyCode::F(6), MOD_NONE).is_none());
}

#[test]
fn s_opens_settings_outside_search() {
    let mut state = State::default();
    assert!(matches!(
        EventHandler::resolve_action(&state, KeyCode::Char('s'), MOD_NONE),
        Some(AppAction::OpenSettings)
    ));
    state.is_search_active = true;
    assert!(matches!(
        EventHandler::resolve_action(&state, KeyCode::Char('s'), MOD_NONE),
        Some(AppAction::UpdateSearchInput('s'))
    ));
}

#[test]
fn settings_keys_navigate_select_and_save() {
    let mut state = State::default();
    state.apply(AppAction::OpenSettings);
    assert!(matches!(EventHandler::resolve_action(&state, KeyCode::Down, MOD_NONE), Some(AppAction::SettingsNavDown)));
    assert!(matches!(EventHandler::resolve_action(&state, KeyCode::Enter, MOD_NONE), Some(AppAction::SettingsSaved)));
    assert!(matches!(EventHandler::resolve_action(&state, KeyCode::Esc, MOD_NONE), Some(AppAction::ExitSettings)));
    // Space on the provider field moves to the next data source.
    let action = EventHandler::resolve_action(&state, KeyCode::Char(' '), MOD_NONE).unwrap();
    let before = match &state.screen {
        AppScreen::Settings(ss) => ss.provider,
        _ => unreachable!(),
    };
    state.apply(action);
    match &state.screen {
        AppScreen::Settings(ss) => assert_ne!(ss.provider, before),
        _ => panic!("left the settings"),
    }
    // On the URL field Space starts editing; characters then edit the URL.
    state.apply(AppAction::SettingsNavDown);
    let action = EventHandler::resolve_action(&state, KeyCode::Char(' '), MOD_NONE).unwrap();
    assert!(matches!(action, AppAction::SettingsToggleUrlEdit));
    state.apply(action);
    assert!(matches!(
        EventHandler::resolve_action(&state, KeyCode::Char('x'), MOD_NONE),
        Some(AppAction::SettingsEditUrlChar('x'))
    ));
    assert!(matches!(
        EventHandler::resolve_action(&state, KeyCode::Backspace, MOD_NONE),
        Some(AppAction::SettingsEditUrlBackspace)
    ));
}

#[test]
fn left_on_oldest_bar_asks_for_more_history() {
    let mut state = State::default();
    let mut cs = ChartState::new(Symbol::new("600519", Market::AShare), Period::Month1);
    cs.data = vec![fa::ohlcv::OHLCV {
        symbol: Symbol::new("600519", Market::AShare),
        timestamp: 0,
        open: fa::decimal::Dec::zero(),
        high: fa::decimal::Dec::zero(),
        low: fa::decimal::Dec::zero(),
        close: fa::decimal::Dec::zero(),
        volume: 0,
    }; 3];
    cs.cursor = 0;
    state.screen = AppScreen::Chart(cs);
    assert!(matches!(
        EventHandler::resolve_action(&state, KeyCode::Left, MOD_NONE),
        Some(AppAction::ChartLoadMoreHistory)
    ));
    if let AppScreen::Chart(cs) = &mut state.screen {
        cs.cursor = 2;
    }
    assert!(matches!(
        EventHandler::resolve_action(&state, KeyCode::Left, MOD_NONE),
        Some(AppAction::ChartMoveCursor(-1))
    ));
}
