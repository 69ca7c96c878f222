use fa::config::{data_source_config_text, remove_toml_section, Config, PortfolioEntry, WatchlistEntry};
use fa::decimal::Dec;
use fa::market::Market;
use fa::tui::i18n::{Language, Strings};
use std::str::FromStr;

fn check_all_fields(s: &Strings) {
    let fields = [
        s.data_source_label, s.data_source_sina, s.updated_label, s.refresh_label, s.never, s.search_prompt,
        s.watchlist_title, s.add_title_prefix, s.portfolio_title, s.detail_title, s.detail_loading,
        s.detail_select_hint, s.detail_latest, s.detail_open, s.detail_high, s.detail_low, s.detail_volume,
        s.detail_vol_unit_yi, s.detail_vol_unit_wan, s.chart_loading, s.chart_no_data, s.chart_help,
        s.chart_max_history, s.bt_config_title, s.bt_result_title, s.bt_trades_title, s.bt_nav_help,
        s.bt_status_idle, s.bt_status_running, s.bt_status_done, s.bt_press_r, s.bt_running_msg, s.bt_no_trades,
        s.bt_label_stock, s.bt_label_strategy, s.bt_label_cash, s.bt_label_commission, s.bt_label_slippage,
        s.bt_label_period, s.bt_label_total_return, s.bt_label_annualized, s.bt_label_max_drawdown,
        s.bt_label_win_rate, s.bt_label_sharpe, s.bt_label_trades, s.bt_label_initial, s.bt_label_final,
        s.bt_trade_date, s.bt_trade_action, s.bt_trade_price, s.bt_trade_qty, s.bt_trade_amount, s.bt_trade_pnl,
        s.bt_trade_buy, s.bt_trade_sell, s.settings_title, s.settings_data_source, s.settings_akshare_url,
        s.settings_akshare_only, s.settings_language, s.settings_help, s.settings_lang_zh, s.settings_lang_en,
        s.quit_title, s.quit_yes, s.quit_no, s.quit_help,
    ];
    for f in fields.iter() {
        assert!(!f.is_empty());
    }
}

#[test]
fn test_zh_all_fields_non_empty() {
    check_all_fields(&Strings::zh());
}

#[test]
fn test_en_all_fields_non_empty() {
    check_all_fields(&Strings::en());
}

#[test]
fn test_language_default_is_zh() {
    assert_eq!(Language::default(), Language::Zh);
}

#[test]
fn i18n_test_language_roundtrip() {
    assert_eq!(Language::from_str("zh").unwrap(), Language::Zh);
    assert_eq!(Language::from_str("en").unwrap(), Language::En);
    assert!(Language::from_str("fr").is_err());
    assert_eq!(Language::Zh.as_str(), "zh");
    assert_eq!(Language::En.as_str(), "en");
}

#[test]
fn language_parse_inverts_as_str() {
    for l in [Language::Zh, Language::En] {
        assert_eq!(Language::parse(l.as_str()), Some(l));
    }
    assert_eq!(Language::parse("ZH"), None);
}

#[test]
fn strings_for_language_picks_the_table() {
    assert_eq!(Strings::for_language(Language::En).quit_yes, Strings::en().quit_yes);
    assert_eq!(Strings::for_language(Language::Zh).quit_yes, Strings::zh().quit_yes);
    assert_ne!(Strings::en().quit_yes, Strings::zh().quit_yes);
}

#[test]
fn test_default_config() {
    let cfg = Config::default();
    assert_eq!(cfg.general.refresh_interval, 30);
    assert_eq!(cfg.general.default_currency, "CNY");
}

#[test]
fn test_remove_toml_section_drops_only_target_section() {
    let content = r#"
[general]
refresh_interval = 30

[data_source]
provider = "sina"
akshare_url = "http://old"

[[watchlist]]
symbol = "AAPL"
market = "us"
"#;

    let updated = remove_toml_section(content, "data_source");

    assert!(updated.contains("[general]"));
    assert!(updated.contains("[[watchlist]]"));
    assert!(!updated.contains("[data_source]"));
    assert!(!updated.contains("provider = \"sina\""));
}

#[test]
fn remove_toml_section_keeps_text_without_the_section() {
    let content = "[general]\nrefresh_interval = 30";
    assert_eq!(remove_toml_section(content, "data_source"), content);
}

#[test]
fn remove_toml_section_of_last_section_keeps_the_head() {
    let content = "[general]\na = 1\n[data_source]\nprovider = \"x\"";
    assert_eq!(remove_toml_section(content, "data_source"), "[general]\na = 1");
}

#[test]
fn data_source_config_text_replaces_existing_section() {
    let existing = "[general]\nrefresh_interval = 30\n\n[data_source]\nprovider = \"sina\"\nakshare_url = \"http://old\"\n";
    let body = "provider = \"akshare\"\nakshare_url = \"http://127.0.0.1:9000\"\n";
    let saved = data_source_config_text(existing, body);
    assert_eq!(saved.matches("[data_source]").count(), 1);
    assert!(saved.contains("provider = \"akshare\""));
    assert!(saved.contains("akshare_url = \"http://127.0.0.1:9000\""));
    assert!(saved.contains("[general]"));
    assert_eq!(
        saved,
        "[general]\nrefresh_interval = 30\n\n[data_source]\nprovider = \"akshare\"\nakshare_url = \"http://127.0.0.1:9000\"\n"
    );
}

#[test]
fn data_source_config_text_on_empty_file_is_the_section_alone() {
    assert_eq!(data_source_config_text("", "provider = \"sina\"\n"), "[data_source]\nprovider = \"sina\"\n");
}

#[test]
fn test_to_watchlist_symbols() {
    let cfg = Config {
        watchlist: vec![
            WatchlistEntry { symbol: "AAPL".into(), market: "us".into() },
            WatchlistEntry { symbol: "600519".into(), market: "a_share".into() },
        ],
        ..Default::default()
    };
    let syms = cfg.to_watchlist_symbols();
    assert_eq!(syms.len(), 2);
    assert_eq!(syms[0].code, "AAPL");
    assert_eq!(syms[1].market, Market::AShare);
}

#[test]
fn to_watchlist_symbols_skips_unknown_markets() {
    let cfg = Config {
        watchlist: vec![
            WatchlistEntry { symbol: "X".into(), market: "mars".into() },
            WatchlistEntry { symbol: "0700".into(), market: "HK".into() },
        ],
        ..Default::default()
    };
    let syms = cfg.to_watchlist_symbols();
    assert_eq!(syms.len(), 1);
    assert_eq!(syms[0].code, "0700");
    assert_eq!(syms[0].market, Market::HKStock);
}

#[test]
fn to_portfolio_parses_decimals_and_skips_bad_rows() {
    let cfg = Config {
        portfolio: vec![
            PortfolioEntry {
                symbol: "AAPL".into(),
                market: "us".into(),
                quantity: "10".into(),
                cost_basis: "1800.00".into(),
            },
            PortfolioEntry {
                symbol: "BAD".into(),
                market: "us".into(),
                quantity: "ten".into(),
                cost_basis: "1".into(),
            },
        ],
        ..Default::default()
    };
    let p = cfg.to_portfolio();
    assert_eq!(p.positions.len(), 1);
    assert_eq!(p.positions[0].symbol.code, "AAPL");
    assert!(p.positions[0].quantity == Dec::new(10, 0));
    assert!(p.positions[0].cost_basis == Dec::new(1800, 0));
}
