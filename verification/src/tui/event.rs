//! Key bindings: which action a key press stands for on each screen.

use vstd::prelude::*;
use crate::period::Period;
use crate::tui::app::{AppAction, AppScreen, DataSourceKind, SettingsState, State};
use crate::tui::i18n::Language;

verus! {

/// A key, as the terminal reports it.
#[derive(Debug, Clone, Copy, PartialEq, Eq, Structural)]
pub enum KeyCode {
    Char(char),
    Tab,
    Up,
    Down,
    Left,
    Right,
    Esc,
    Enter,
    Backspace,
    /// A function key `F1`, `F2`, ...
    F(u8),
    /// Any other key.
    Other,
}

/// No modifier held.
pub const MOD_NONE: u8 = 0;

/// Shift held (alone).
pub const MOD_SHIFT: u8 = 1;

/// Control held (alone).
pub const MOD_CONTROL: u8 = 2;

/// The main screen's bindings.
pub open spec fn main_key_spec(code: KeyCode, mods: u8) -> Option<AppAction> {
    match code {
        KeyCode::Char('q') if mods == MOD_NONE => Some(AppAction::Quit),
        KeyCode::Char('c') if mods == MOD_CONTROL => Some(AppAction::Quit),
        KeyCode::Tab => Some(AppAction::NextPanel),
        KeyCode::Up => Some(AppAction::MoveUp),
        KeyCode::Down => Some(AppAction::MoveDown),
        KeyCode::Char('/') if mods == MOD_NONE => Some(AppAction::StartSearch),
        KeyCode::Esc => Some(AppAction::CancelSearch),
        KeyCode::Char('d') if mods == MOD_NONE => Some(AppAction::DeleteSelected),
        KeyCode::Char('r') if mods == MOD_NONE => Some(AppAction::Refresh),
        KeyCode::Backspace => Some(AppAction::BackspaceSearch),
        KeyCode::Char(c) if mods == MOD_NONE || mods == MOD_SHIFT => Some(AppAction::UpdateSearchInput(c)),
        _ => None,
    }
}

/// The chart screen's bindings.
pub open spec fn chart_key_spec(code: KeyCode, mods: u8) -> Option<AppAction> {
    match code {
        KeyCode::Esc => Some(AppAction::ExitChart),
        KeyCode::Left => Some(AppAction::ChartMoveCursor(-1i32)),
        KeyCode::Right => Some(AppAction::ChartMoveCursor(1i32)),
        KeyCode::Char('[') if mods == MOD_NONE => Some(AppAction::ChartZoom(false)),
        KeyCode::Char(']') if mods == MOD_NONE => Some(AppAction::ChartZoom(true)),
        KeyCode::Char('1') if mods == MOD_NONE => Some(AppAction::ChartChangePeriod(Period::Day1)),
        KeyCode::Char('5') if mods == MOD_NONE => Some(AppAction::ChartChangePeriod(Period::Week1)),
        KeyCode::Char('m') if mods == MOD_NONE => Some(AppAction::ChartChangePeriod(Period::Month1)),
        KeyCode::Char('q') if mods == MOD_NONE => Some(AppAction::ChartChangePeriod(Period::Month3)),
        KeyCode::Char('y') if mods == MOD_NONE => Some(AppAction::ChartChangePeriod(Period::Year1)),
        KeyCode::F(1) => Some(AppAction::ChartChangePeriod(Period::Min1)),
        KeyCode::F(2) => Some(AppAction::ChartChangePeriod(Period::Min5)),
        KeyCode::F(3) => Some(AppAction::ChartChangePeriod(Period::Min15)),
        KeyCode::F(4) => Some(AppAction::ChartChangePeriod(Period::Min30)),
        KeyCode::F(5) => Some(AppAction::ChartChangePeriod(Period::Min60)),
        _ => None,
    }
}

/// The bindings while a ticker is being typed.
pub open spec fn add_key_spec(code: KeyCode, mods: u8) -> Option<AppAction> {
    match code {
        KeyCode::Enter => Some(AppAction::ConfirmAdd),
        KeyCode::Esc => Some(AppAction::CancelAdd),
        KeyCode::Backspace => Some(AppAction::BackspaceAdd),
        KeyCode::Char(c) if mods == MOD_NONE || mods == MOD_SHIFT => Some(AppAction::UpdateAddInput(c)),
        _ => None,
    }
}

/// The backtest screen's bindings.
pub open spec fn backtest_key_spec(code: KeyCode, mods: u8) -> Option<AppAction> {
    match code {
        KeyCode::Esc => Some(AppAction::ExitBacktest),
        KeyCode::Char('r') if mods == MOD_NONE => Some(AppAction::RunBacktest),
        KeyCode::Left => Some(AppAction::BacktestPrevStrategy),
        KeyCode::Right => Some(AppAction::BacktestNextStrategy),
        KeyCode::Up => Some(AppAction::BacktestScrollUp),
        KeyCode::Down => Some(AppAction::BacktestScrollDown),
        _ => None,
    }
}

/// The data source after `k` in the settings' cycle: Sina, AkShare,
/// ZhituAPI, Sina again.
pub open spec fn next_source(k: DataSourceKind) -> DataSourceKind {
    match k {
        DataSourceKind::Sina => DataSourceKind::AkShare,
        DataSourceKind::AkShare => DataSourceKind::Zhitu,
        DataSourceKind::Zhitu => DataSourceKind::Sina,
    }
}

/// The other language.
pub open spec fn other_language(l: Language) -> Language {
    match l {
        Language::Zh => Language::En,
        Language::En => Language::Zh,
    }
}

/// The settings screen's bindings: arrows move between fields, Space
/// switches the data source or the language or starts and ends editing the
/// URL (by the field in focus), Enter saves, Esc leaves; while the URL is
/// being edited, other characters and Backspace edit it.
pub open spec fn settings_key_spec(ss: SettingsState, code: KeyCode, mods: u8) -> Option<AppAction> {
    match code {
        KeyCode::Up => Some(AppAction::SettingsNavUp),
        KeyCode::Down => Some(AppAction::SettingsNavDown),
        KeyCode::Enter => Some(AppAction::SettingsSaved),
        KeyCode::Esc => Some(AppAction::ExitSettings),
        KeyCode::Char(' ') if mods == MOD_NONE => if ss.editing_url || ss.focused_field == 1 {
            Some(AppAction::SettingsToggleUrlEdit)
        } else if ss.focused_field == 0 {
            Some(AppAction::SettingsSelectProvider(next_source(ss.provider)))
        } else {
            Some(AppAction::SettingsSelectLanguage(other_language(ss.language)))
        },
        KeyCode::Backspace if ss.editing_url => Some(AppAction::SettingsEditUrlBackspace),
        KeyCode::Char(c) if ss.editing_url && (mods == MOD_NONE || mods == MOD_SHIFT) => Some(
            AppAction::SettingsEditUrlChar(c),
        ),
        _ => None,
    }
}

/// The key bindings of each screen.
pub struct EventHandler;

impl EventHandler {
    /// The main screen (watchlist and portfolio).
    pub fn map_key_main(code: KeyCode, modifiers: u8) -> (r: Option<AppAction>)
        ensures
            r == main_key_spec(code, modifiers),
    {
        match code {
            KeyCode::Char('q') if modifiers == MOD_NONE => Some(AppAction::Quit),
            KeyCode::Char('c') if modifiers == MOD_CONTROL => Some(AppAction::Quit),
            KeyCode::Tab => Some(AppAction::NextPanel),
            KeyCode::Up => Some(AppAction::MoveUp),
            KeyCode::Down => Some(AppAction::MoveDown),
            KeyCode::Char('/') if modifiers == MOD_NONE => Some(AppAction::StartSearch),
            KeyCode::Esc => Some(AppAction::CancelSearch),
            KeyCode::Char('d') if modifiers == MOD_NONE => Some(AppAction::DeleteSelected),
            KeyCode::Char('r') if modifiers == MOD_NONE => Some(AppAction::Refresh),
            KeyCode::Backspace => Some(AppAction::BackspaceSearch),
            KeyCode::Char(c) if modifiers == MOD_NONE || modifiers == MOD_SHIFT => Some(AppAction::UpdateSearchInput(c)),
            _ => None,
        }
    }

    /// The chart screen.
    pub fn map_key_chart(code: KeyCode, modifiers: u8) -> (r: Option<AppAction>)
        ensures
            r == chart_key_spec(code, modifiers),
    {
        match code {
            KeyCode::Esc => Some(AppAction::ExitChart),
            KeyCode::Left => Some(AppAction::ChartMoveCursor(-1)),
            KeyCode::Right => Some(AppAction::ChartMoveCursor(1)),
            KeyCode::Char('[') if modifiers == MOD_NONE => Some(AppAction::ChartZoom(false)),
            KeyCode::Char(']') if modifiers == MOD_NONE => Some(AppAction::ChartZoom(true)),
            KeyCode::Char('1') if modifiers == MOD_NONE => Some(AppAction::ChartChangePeriod(Period::Day1)),
            KeyCode::Char('5') if modifiers == MOD_NONE => Some(AppAction::ChartChangePeriod(Period::Week1)),
            KeyCode::Char('m') if modifiers == MOD_NONE => Some(AppAction::ChartChangePeriod(Period::Month1)),
            KeyCode::Char('q') if modifiers == MOD_NONE => Some(AppAction::ChartChangePeriod(Period::Month3)),
            KeyCode::Char('y') if modifiers == MOD_NONE => Some(AppAction::ChartChangePeriod(Period::Year1)),
            KeyCode::F(1) => Some(AppAction::ChartChangePeriod(Period::Min1)),
            KeyCode::F(2) => Some(AppAction::ChartChangePeriod(Period::Min5)),
            KeyCode::F(3) => Some(AppAction::ChartChangePeriod(Period::Min15)),
            KeyCode::F(4) => Some(AppAction::ChartChangePeriod(Period::Min30)),
            KeyCode::F(5) => Some(AppAction::ChartChangePeriod(Period::Min60)),
            _ => None,
        }
    }

    /// While a ticker is being typed (Ctrl+C is handled before this).
    pub fn map_key_add(code: KeyCode, modifiers: u8) -> (r: Option<AppAction>)
        ensures
            r == add_key_spec(code, modifiers),
    {
        match code {
            KeyCode::Enter => Some(AppAction::ConfirmAdd),
            KeyCode::Esc => Some(AppAction::CancelAdd),
            KeyCode::Backspace => Some(AppAction::BackspaceAdd),
            KeyCode::Char(c) if modifiers == MOD_NONE || modifiers == MOD_SHIFT => Some(AppAction::UpdateAddInput(c)),
            _ => None,
        }
    }

    /// The backtest screen.
    pub fn map_key_backtest(code: KeyCode, modifiers: u8) -> (r: Option<AppAction>)
        ensures
            r == backtest_key_spec(code, modifiers),
    {
        match code {
            KeyCode::Esc => Some(AppAction::ExitBacktest),
            KeyCode::Char('r') if modifiers == MOD_NONE => Some(AppAction::RunBacktest),
            KeyCode::Left => Some(AppAction::BacktestPrevStrategy),
            KeyCode::Right => Some(AppAction::BacktestNextStrategy),
            KeyCode::Up => Some(AppAction::BacktestScrollUp),
            KeyCode::Down => Some(AppAction::BacktestScrollDown),
            _ => None,
        }
    }

    /// The settings screen.
    pub fn map_key_settings(ss: &SettingsState, code: KeyCode, modifiers: u8) -> (r: Option<AppAction>)
        ensures
            r == settings_key_spec(*ss, code, modifiers),
    {
        match code {
            KeyCode::Up => Some(AppAction::SettingsNavUp),
            KeyCode::Down => Some(AppAction::SettingsNavDown),
            KeyCode::Enter => Some(AppAction::SettingsSaved),
            KeyCode::Esc => Some(AppAction::ExitSettings),
            KeyCode::Char(' ') if modifiers == MOD_NONE => {
                if ss.editing_url || ss.focused_field == 1 {
                    Some(AppAction::SettingsToggleUrlEdit)
                } else if ss.focused_field == 0 {
                    let next = match ss.provider {
                        DataSourceKind::Sina => DataSourceKind::AkShare,
                        DataSourceKind::AkShare => DataSourceKind::Zhitu,
                        DataSourceKind::Zhitu => DataSourceKind::Sina,
                    };
                    Some(AppAction::SettingsSelectProvider(next))
                } else {
                    let other = match ss.language {
                        Language::Zh => Language::En,
                        Language::En => Language::Zh,
                    };
                    Some(AppAction::SettingsSelectLanguage(other))
                }
            },
            KeyCode::Backspace if ss.editing_url => Some(AppAction::SettingsEditUrlBackspace),
            KeyCode::Char(c) if ss.editing_url && (modifiers == MOD_NONE || modifiers == MOD_SHIFT) => Some(
                AppAction::SettingsEditUrlChar(c),
            ),
            _ => None,
        }
    }

    /// The action for a key press in the current state: Ctrl+C always
    /// quits; the chart, backtest and settings screens use their own
    /// bindings (Left on the oldest bar of a chart asks for more history); while typing a ticker the add bindings apply; otherwise
    /// (outside search) `b` backtests and Enter charts the selected symbol,
    /// `a` starts adding, `s` opens the settings, and the main bindings
    /// apply.
    pub fn resolve_action(state: &State, code: KeyCode, modifiers: u8) -> (r: Option<AppAction>)
        ensures
            code == KeyCode::Char('c') && modifiers == MOD_CONTROL ==> r == Some(AppAction::Quit),
            !(code == KeyCode::Char('c') && modifiers == MOD_CONTROL) ==> {
                if state.screen is Chart {
                    if code == KeyCode::Left && state.screen->Chart_0.cursor == 0 && state.screen->Chart_0.data@.len()
                        > 0 {
                        r == Some(AppAction::ChartLoadMoreHistory)
                    } else {
                        r == chart_key_spec(code, modifiers)
                    }
                } else if state.screen is Backtest {
                    r == backtest_key_spec(code, modifiers)
                } else if state.screen is Settings {
                    r == settings_key_spec(state.screen->Settings_0, code, modifiers)
                } else if state.is_add_active {
                    r == add_key_spec(code, modifiers)
                } else if !state.is_search_active && code == KeyCode::Char('b') && modifiers == MOD_NONE {
                    if state.selected_watchlist < state.watchlist@.len() {
                        r == Some(AppAction::StartBacktest(state.watchlist@[state.selected_watchlist as int]))
                    } else {
                        r is None
                    }
                } else if !state.is_search_active && code == KeyCode::Char('a') && modifiers == MOD_NONE {
                    r == Some(AppAction::StartAdd)
                } else if !state.is_search_active && code == KeyCode::Char('s') && modifiers == MOD_NONE {
                    r == Some(AppAction::OpenSettings)
                } else if code == KeyCode::Enter && modifiers == MOD_NONE {
                    if state.selected_watchlist < state.watchlist@.len() {
                        r == Some(AppAction::EnterChart(state.watchlist@[state.selected_watchlist as int]))
                    } else {
                        r is None
                    }
                } else {
                    r == main_key_spec(code, modifiers)
                }
            },
    {
        if code == KeyCode::Char('c') && modifiers == MOD_CONTROL {
            return Some(AppAction::Quit);
        }
        match &state.screen {
            AppScreen::Chart(cs) => {
                if code == KeyCode::Left && cs.cursor == 0 && cs.data.len() > 0 {
                    return Some(AppAction::ChartLoadMoreHistory);
                }
                return EventHandler::map_key_chart(code, modifiers);
            },
            AppScreen::Backtest(_) => {
                return EventHandler::map_key_backtest(code, modifiers);
            },
            AppScreen::Settings(ss) => {
                return EventHandler::map_key_settings(ss, code, modifiers);
            },
            _ => {},
        }
        if state.is_add_active {
            EventHandler::map_key_add(code, modifiers)
        } else if !state.is_search_active && code == KeyCode::Char('b') && modifiers == MOD_NONE {
            match state.selected_symbol() {
                Some(sym) => Some(AppAction::StartBacktest(sym.clone())),
                None => None,
            }
        } else if !state.is_search_active && code == KeyCode::Char('a') && modifiers == MOD_NONE {
            Some(AppAction::StartAdd)
        } else if !state.is_search_active && code == KeyCode::Char('s') && modifiers == MOD_NONE {
            Some(AppAction::OpenSettings)
        } else if code == KeyCode::Enter && modifiers == MOD_NONE {
            match state.selected_symbol() {
                Some(sym) => Some(AppAction::EnterChart(sym.clone())),
                None => None,
            }
        } else {
            EventHandler::map_key_main(code, modifiers)
        }
    }
}

} // verus!
