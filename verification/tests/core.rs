use fa::decimal::Dec;
use fa::keyed::KeyedMap;
use fa::market::{market_key, Market};
use fa::ohlcv::Quote;
use fa::period::{next_longer_period, period_label, zhitu_adjust, Period};
use fa::portfolio::{Portfolio, Position};
use fa::symbol::Symbol;

fn d(num: i64, scale: u32) -> Dec {
    Dec::new(num, scale)
}

#[test]
fn test_market_display() {
    assert_eq!(Market::USStock.display_name(), "US");
    assert_eq!(Market::AShare.display_name(), "A股");
    assert_eq!(Market::HKStock.display_name(), "HK");
    assert_eq!(Market::Crypto.display_name(), "Crypto");
}

#[test]
fn test_market_from_str() {
    assert_eq!("us".parse::<Market>().unwrap(), Market::USStock);
    assert_eq!("a_share".parse::<Market>().unwrap(), Market::AShare);
    assert_eq!("hk".parse::<Market>().unwrap(), Market::HKStock);
    assert!("invalid".parse::<Market>().is_err());
}

#[test]
fn market_parse_is_case_insensitive_and_names_unknown_input() {
    assert_eq!(Market::parse("NASDAQ").unwrap(), Market::USStock);
    assert_eq!(Market::parse("HKEX").unwrap(), Market::HKStock);
    match Market::parse("mars") {
        Err(fa::error::DataError::Parse(m)) => assert_eq!(m, "Unknown market: mars"),
        other => panic!("unexpected {:?}", other),
    }
}

#[test]
fn market_key_round_trips_through_parse() {
    for m in [Market::USStock, Market::AShare, Market::HKStock, Market::Crypto, Market::Forex] {
        assert_eq!(Market::parse(market_key(&m)).unwrap(), m);
    }
    assert_eq!(market_key(&Market::AShare), "a_share");
}

#[test]
fn test_minute_periods_akshare_label() {
    assert_eq!(Period::Min1.akshare_period(), "1");
    assert_eq!(Period::Min5.akshare_period(), "5");
    assert_eq!(Period::Min15.akshare_period(), "15");
    assert_eq!(Period::Min30.akshare_period(), "30");
    assert_eq!(Period::Min60.akshare_period(), "60");
}

#[test]
fn test_is_intraday() {
    for p in [Period::Min1, Period::Min5, Period::Min15, Period::Min30, Period::Min60] {
        assert!(p.is_intraday(), "{p:?} should be intraday");
    }
    for p in [
        Period::Day1,
        Period::Week1,
        Period::Month1,
        Period::Month3,
        Period::Month6,
        Period::Year1,
        Period::Year5,
    ] {
        assert!(!p.is_intraday(), "{p:?} should not be intraday");
    }
}

#[test]
fn test_can_extend_history() {
    for p in [Period::Min1, Period::Min5, Period::Day1, Period::Week1] {
        assert!(!p.can_extend_history(), "{p:?} should not support extended history");
    }
    for p in [Period::Month1, Period::Month3, Period::Month6, Period::Year1, Period::Year5] {
        assert!(p.can_extend_history(), "{p:?} should support extended history");
    }
}

#[test]
fn test_extended_yahoo_range() {
    assert_eq!(Period::Month1.extended_yahoo_range(), "5y");
    assert_eq!(Period::Month3.extended_yahoo_range(), "5y");
    assert_eq!(Period::Month6.extended_yahoo_range(), "5y");
    assert_eq!(Period::Year1.extended_yahoo_range(), "5y");
    assert_eq!(Period::Year5.extended_yahoo_range(), "max");
    assert_eq!(Period::Day1.extended_yahoo_range(), Period::Day1.yahoo_range());
    assert_eq!(Period::Min1.extended_yahoo_range(), Period::Min1.yahoo_range());
}

#[test]
fn test_period_label() {
    assert_eq!(Period::Min1.label(), "1分");
    assert_eq!(Period::Day1.label(), "日线");
    assert_eq!(Period::Year1.label(), "年线");
}

#[test]
fn yahoo_interval_and_chart_axis_codes() {
    assert_eq!(Period::Day1.yahoo_interval(), "5m");
    assert_eq!(Period::Week1.yahoo_interval(), "1h");
    assert_eq!(Period::Year5.yahoo_interval(), "1d");
    assert_eq!(period_label(&Period::Week1), "5D");
    assert_eq!(period_label(&Period::Month3), "3M");
}

#[test]
fn test_zhitu_level_supported() {
    assert_eq!(Period::Min5.zhitu_level(), Some("5"));
    assert_eq!(Period::Min15.zhitu_level(), Some("15"));
    assert_eq!(Period::Min30.zhitu_level(), Some("30"));
    assert_eq!(Period::Min60.zhitu_level(), Some("60"));
    assert_eq!(Period::Day1.zhitu_level(), Some("d"));
    assert_eq!(Period::Week1.zhitu_level(), Some("w"));
    assert_eq!(Period::Month1.zhitu_level(), Some("m"));
    assert_eq!(Period::Year1.zhitu_level(), Some("y"));
}

#[test]
fn test_zhitu_level_unsupported() {
    assert_eq!(Period::Min1.zhitu_level(), None);
    assert_eq!(Period::Month3.zhitu_level(), None);
    assert_eq!(Period::Month6.zhitu_level(), None);
    assert_eq!(Period::Year5.zhitu_level(), None);
}

#[test]
fn test_zhitu_adjust() {
    assert_eq!(zhitu_adjust(), "fr");
}

#[test]
fn test_next_longer_period_full_chain() {
    assert_eq!(next_longer_period(&Period::Min1), None);
    assert_eq!(next_longer_period(&Period::Min5), None);
    assert_eq!(next_longer_period(&Period::Min15), None);
    assert_eq!(next_longer_period(&Period::Min30), None);
    assert_eq!(next_longer_period(&Period::Min60), None);
    assert_eq!(next_longer_period(&Period::Day1), Some(Period::Week1));
    assert_eq!(next_longer_period(&Period::Week1), Some(Period::Month1));
    assert_eq!(next_longer_period(&Period::Month1), Some(Period::Month3));
    assert_eq!(next_longer_period(&Period::Month3), Some(Period::Month6));
    assert_eq!(next_longer_period(&Period::Month6), Some(Period::Year1));
    assert_eq!(next_longer_period(&Period::Year1), Some(Period::Year5));
    assert_eq!(next_longer_period(&Period::Year5), None);
}

#[test]
fn test_yahoo_ticker_a_share() {
    let s = Symbol::new("600519", Market::AShare);
    assert_eq!(s.yahoo_ticker(), "600519.SS");
    let s2 = Symbol::new("000001", Market::AShare);
    assert_eq!(s2.yahoo_ticker(), "000001.SZ");
}

#[test]
fn test_yahoo_ticker_index_with_prefix() {
    let idx = Symbol::new("sh000001", Market::AShare);
    assert_eq!(idx.yahoo_ticker(), "000001.SS");
    let idx2 = Symbol::new("sz399001", Market::AShare);
    assert_eq!(idx2.yahoo_ticker(), "399001.SZ");
}

#[test]
fn yahoo_ticker_pads_hong_kong_codes() {
    assert_eq!(Symbol::new("700", Market::HKStock).yahoo_ticker(), "0700.HK");
    assert_eq!(Symbol::new("09988", Market::HKStock).yahoo_ticker(), "09988.HK");
}

#[test]
fn test_sina_ticker_index_with_prefix() {
    let idx = Symbol::new("sh000001", Market::AShare);
    assert_eq!(idx.sina_ticker(), "sh000001");
    let idx2 = Symbol::new("sz399006", Market::AShare);
    assert_eq!(idx2.sina_ticker(), "sz399006");
}

#[test]
fn test_display_code_strips_prefix() {
    let idx = Symbol::new("sh000001", Market::AShare);
    assert_eq!(idx.display_code(), "000001");
    let s = Symbol::new("600519", Market::AShare);
    assert_eq!(s.display_code(), "600519");
}

#[test]
fn test_yahoo_ticker_us() {
    let s = Symbol::new("AAPL", Market::USStock);
    assert_eq!(s.yahoo_ticker(), "AAPL");
}

#[test]
fn test_sina_ticker() {
    let s = Symbol::new("600519", Market::AShare);
    assert_eq!(s.sina_ticker(), "sh600519");
    let s2 = Symbol::new("000001", Market::AShare);
    assert_eq!(s2.sina_ticker(), "sz000001");
}

#[test]
fn test_with_name() {
    let s = Symbol::new("AAPL", Market::USStock).with_name("Apple Inc.");
    assert_eq!(s.name.as_deref(), Some("Apple Inc."));
    assert_eq!(s.to_display_string(), "AAPL (Apple Inc.)");
}

fn aapl_position() -> Position {
    Position { symbol: Symbol::new("AAPL", Market::USStock), quantity: d(10, 0), cost_basis: d(180000, 2) }
}

#[test]
fn test_market_value() {
    assert_eq!(aapl_position().market_value(d(18520, 2)), d(185200, 2));
}

#[test]
fn test_pnl_positive() {
    assert_eq!(aapl_position().pnl(d(18520, 2)), d(5200, 2));
}

#[test]
fn test_pnl_negative() {
    assert_eq!(aapl_position().pnl(d(17000, 2)), d(-10000, 2));
}

#[test]
fn test_pnl_pct() {
    let pct = aapl_position().pnl_pct(d(18520, 2));
    assert!(lt(d(288, 2), pct) && lt(pct, d(290, 2)));
}

#[test]
fn test_cost_per_share() {
    assert_eq!(aapl_position().cost_per_share(), d(18000, 2));
}

#[test]
fn test_portfolio_total_cost() {
    let p = Portfolio {
        positions: vec![
            aapl_position(),
            Position { symbol: Symbol::new("TSLA", Market::USStock), quantity: d(5, 0), cost_basis: d(110000, 2) },
        ],
    };
    assert_eq!(p.total_cost(), d(290000, 2));
}

#[test]
fn test_portfolio_total_pnl() {
    let p = Portfolio { positions: vec![aapl_position()] };
    let mut prices = KeyedMap::new();
    prices.insert("AAPL".to_string(), d(18520, 2));
    assert_eq!(p.total_pnl(&prices), d(5200, 2));
}

#[test]
fn portfolio_values_missing_prices_at_cost() {
    let p = Portfolio { positions: vec![aapl_position()] };
    let prices = KeyedMap::new();
    assert_eq!(p.total_market_value(&prices), d(180000, 2));
    assert_eq!(p.total_pnl(&prices), Dec::zero());
}

fn make_quote(price: Dec, change: Dec, change_pct: Dec) -> Quote {
    Quote {
        symbol: Symbol::new("AAPL", Market::USStock),
        price,
        change,
        change_pct,
        open: None,
        high: None,
        low: None,
        volume: None,
        market_cap: None,
        pe_ratio: None,
        week_52_high: None,
        week_52_low: None,
        name: None,
        timestamp: 0,
    }
}

#[test]
fn test_positive_change() {
    let q = make_quote(d(18520, 2), d(220, 2), d(120, 2));
    assert!(q.is_positive());
    assert_eq!(q.change_sign(), "+");
    assert_eq!(q.change_display(), "+2.20 (+1.20%)");
}

#[test]
fn test_negative_change() {
    let q = make_quote(d(24580, 2), d(-210, 2), d(-85, 2));
    assert!(!q.is_positive());
    assert_eq!(q.change_sign(), "");
    assert_eq!(q.change_display(), "-2.10 (-0.85%)");
}

#[test]
fn keyed_map_reads_back_writes() {
    let mut m: KeyedMap<u32> = KeyedMap::new();
    m.insert("a".to_string(), 1);
    m.insert("b".to_string(), 2);
    m.insert("a".to_string(), 3);
    assert_eq!(m.get("a"), Some(&3));
    assert_eq!(m.len(), 2);
    assert_eq!(m.remove("a"), Some(3));
    assert_eq!(m.get("a"), None);
    assert!(m.contains_key("b"));
}

#[test]
fn decimal_operations_follow_rust_decimal() {
    assert_eq!(fa::decimal::dec_add(d(150, 2), d(25, 1)), d(400, 2));
    assert_eq!(d(5, 0).neg(), d(-5, 0));
}

fn lt(a: Dec, b: Dec) -> bool {
    rust_decimal::Decimal::from_i128_with_scale(a.mantissa(), a.scale())
        < rust_decimal::Decimal::from_i128_with_scale(b.mantissa(), b.scale())
}
