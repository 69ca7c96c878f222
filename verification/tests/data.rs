use fa::data::akshare::AkShareProvider;
use fa::data::bars::{bars_from_raw, RawBar, TimeFormat};
use fa::data::cache::InMemoryCache;
use fa::data::csv::load_portfolio_from_csv;
use fa::data::router::{backoff, Wait};
use fa::data::sina::{parse_sina_kline_bars, parse_sina_response, parse_sina_suggest, SinaFinanceProvider, SinaKlineBar};
use fa::data::zhitu::ZhituProvider;
use fa::data::zhitu_ext::ZhituClient;
use fa::decimal::Dec;
use fa::error::DataError;
use fa::market::Market;
use fa::period::Period;
use fa::symbol::Symbol;
use std::time::Duration;

fn d(num: i64, scale: u32) -> Dec {
    Dec::new(num, scale)
}

#[test]
fn test_cache_hit() {
    let mut cache = InMemoryCache::new(Duration::from_secs(60).as_nanos());
    cache.set("AAPL".to_string(), "price_data".to_string());
    assert_eq!(cache.get("AAPL"), Some("price_data".to_string()));
}

#[test]
fn test_cache_miss() {
    let cache = InMemoryCache::<String>::new(Duration::from_secs(60).as_nanos());
    assert_eq!(cache.get("TSLA"), None);
}

#[test]
fn test_cache_expiry() {
    let mut cache = InMemoryCache::new(Duration::from_millis(50).as_nanos());
    cache.set("BTC".to_string(), "value".to_string());
    let start = std::time::Instant::now();
    while start.elapsed() < Duration::from_millis(100) {
        std::hint::spin_loop();
    }
    assert_eq!(cache.get("BTC"), None);
}

#[test]
fn test_cache_overwrite() {
    let mut cache = InMemoryCache::new(Duration::from_secs(60).as_nanos());
    cache.set("AAPL".to_string(), "v1".to_string());
    cache.set("AAPL".to_string(), "v2".to_string());
    assert_eq!(cache.get("AAPL"), Some("v2".to_string()));
}

#[test]
fn cache_reads_at_given_times() {
    let mut cache = InMemoryCache::new(Duration::from_nanos(100).as_nanos());
    cache.set_at("k".to_string(), 7u32, 1000);
    assert_eq!(cache.get_at("k", 1099), Some(7));
    assert_eq!(cache.get_at("k", 1100), None);
    cache.clear_expired_at(1050);
    assert_eq!(cache.get_at("k", 1050), Some(7));
    cache.clear_expired_at(1100);
    assert_eq!(cache.get_at("k", 0), None);
}

#[test]
fn cache_invalidate_drops_the_key() {
    let mut cache = InMemoryCache::new(Duration::from_secs(60).as_nanos());
    cache.set("A".to_string(), 1u8);
    cache.set("B".to_string(), 2u8);
    cache.invalidate("A");
    assert_eq!(cache.get("A"), None);
    assert_eq!(cache.get("B"), Some(2));
    cache.clear_expired();
    assert_eq!(cache.get("B"), Some(2));
}

const PORTFOLIO_CSV: &str = "symbol,market,quantity,cost_basis\nAAPL,us,10,1800.00\nTSLA,us,5,1100.00\n\n600519,a_share,100,168000\n 0700 , hk , 200 , 65000.5 \n";

#[test]
fn test_load_portfolio_from_csv() {
    let portfolio = load_portfolio_from_csv(PORTFOLIO_CSV).unwrap();
    assert_eq!(portfolio.positions.len(), 4);
    let aapl = &portfolio.positions[0];
    assert_eq!(aapl.symbol.code, "AAPL");
    assert_eq!(aapl.quantity, d(10, 0));
    assert_eq!(aapl.cost_basis, d(180000, 2));
    let hk = &portfolio.positions[3];
    assert_eq!(hk.symbol.code, "0700");
    assert_eq!(hk.symbol.market, Market::HKStock);
    assert_eq!(hk.cost_basis, d(650005, 1));
}

#[test]
fn test_load_portfolio_invalid_csv() {
    let result = load_portfolio_from_csv("symbol,market\nAAPL");
    assert!(result.is_err());
}

#[test]
fn csv_errors_name_the_line() {
    match load_portfolio_from_csv("h\nAAPL,us,1,2\nAAPL,us\n") {
        Err(DataError::Parse(m)) => assert_eq!(m, "line 3: expected 4 fields, got 2"),
        other => panic!("unexpected {:?}", other.map(|p| p.positions.len())),
    }
    match load_portfolio_from_csv("h\nAAPL,mars,1,2\n") {
        Err(DataError::Parse(m)) => assert_eq!(m, "Unknown market: mars"),
        other => panic!("unexpected {:?}", other.map(|p| p.positions.len())),
    }
    match load_portfolio_from_csv("h\nAAPL,us, x ,2\n") {
        Err(DataError::Parse(m)) => assert_eq!(m, "invalid quantity:  x "),
        other => panic!("unexpected {:?}", other.map(|p| p.positions.len())),
    }
    match load_portfolio_from_csv("h\nAAPL,us,1,y\n") {
        Err(DataError::Parse(m)) => assert_eq!(m, "invalid cost_basis: y"),
        other => panic!("unexpected {:?}", other.map(|p| p.positions.len())),
    }
}

#[test]
fn test_parse_sina_suggest_basic() {
    let text = r#"var suggestvalue="600519,11,贵州茅台,上证A股,,,,,|000001,11,平安银行,深证A股,,,,,";"#;
    let results = parse_sina_suggest(text);
    assert_eq!(results.len(), 2);
    assert_eq!(results[0].code, "600519");
    assert_eq!(results[0].name, "贵州茅台");
    assert_eq!(results[1].code, "000001");
    assert_eq!(results[1].name, "平安银行");
}

#[test]
fn test_parse_sina_suggest_empty() {
    let results = parse_sina_suggest(r#"var suggestvalue="";"#);
    assert!(results.is_empty());
}

#[test]
fn test_parse_sina_suggest_no_quotes() {
    let results = parse_sina_suggest("no quotes here");
    assert!(results.is_empty());
}

#[test]
fn sina_suggest_skips_short_and_nameless_entries() {
    let results = parse_sina_suggest(r#"x="a,1|b,1, |c,1,C""#);
    assert_eq!(results.len(), 1);
    assert_eq!(results[0].code, "c");
}

const SINA_QUOTE: &str = "var hq_str_sh600519=\"贵州茅台,1832.00,1800.00,1845.00,1860.00,1820.00,1844.99,1845.00,3512345,6480000000.00,100,1844.99\";";

#[test]
fn sina_volume_reads_as_str_parse_does() {
    let symbol = Symbol::new("600519", Market::AShare);
    let vol = |v: &str| {
        let text = format!("x=\"n,1,1,1,1,1,1,1,{},1\"", v);
        parse_sina_response(&text, &symbol).unwrap().volume
    };
    assert_eq!(vol("42"), Some(42));
    assert_eq!(vol("+42"), Some(42));
    assert_eq!(vol(" 7 "), Some(7));
    assert_eq!(vol("18446744073709551615"), Some(u64::MAX));
    assert_eq!(vol("18446744073709551616"), Some(0));
    assert_eq!(vol("-1"), Some(0));
    assert_eq!(vol("+"), Some(0));
    assert_eq!(vol("1_000"), Some(0));
    let quote = parse_sina_response("x=\"n,1,1,1,1,1,1,1,5,1\"", &symbol).unwrap();
    assert!(quote.timestamp > 1_600_000_000);
}

#[test]
fn test_parse_sina_response() {
    let symbol = Symbol::new("600519", Market::AShare);
    let quote = parse_sina_response(SINA_QUOTE, &symbol).unwrap();
    assert_eq!(quote.symbol.code, "600519");
    assert_eq!(quote.price, d(184500, 2));
    assert_eq!(quote.open.unwrap(), d(183200, 2));
    assert_eq!(quote.high.unwrap(), d(186000, 2));
    assert_eq!(quote.low.unwrap(), d(182000, 2));
    assert_eq!(quote.name.as_deref(), Some("贵州茅台"));
    assert_eq!(quote.change, d(45, 0));
    assert_eq!(quote.change_pct, d(25, 1));
    assert_eq!(quote.volume, Some(3512345));
}

#[test]
fn sina_response_errors() {
    let symbol = Symbol::new("600519", Market::AShare);
    let msg = |t: &str| match parse_sina_response(t, &symbol) {
        Err(DataError::Parse(m)) => m,
        other => panic!("unexpected {:?}", other.map(|q| q.price)),
    };
    assert_eq!(msg("nothing"), "no opening quote");
    assert_eq!(msg("x=\"\""), "empty response");
    assert_eq!(msg("x=\"a,b,c\""), "too few fields: 3");
    assert_eq!(msg("x=\"n,abc,1,1,1,1,1,1,1,1\""), "cannot parse 'abc' as decimal");
}

#[test]
fn test_parse_sina_kline_bars() {
    let bars = vec![
        SinaKlineBar {
            day: "2026-06-09".into(),
            open: "3977.539".into(),
            high: "4010.872".into(),
            low: "3955.908".into(),
            close: "4010.031".into(),
            volume: "57657009000".into(),
        },
        SinaKlineBar {
            day: "2026-06-10".into(),
            open: "3985.124".into(),
            high: "4006.313".into(),
            low: "3963.442".into(),
            close: "3993.226".into(),
            volume: "59869473900".into(),
        },
        SinaKlineBar {
            day: "not a day".into(),
            open: "1".into(),
            high: "1".into(),
            low: "1".into(),
            close: "1".into(),
            volume: "1".into(),
        },
    ];
    let symbol = Symbol::new("sh000001", Market::AShare);
    let ohlcv = parse_sina_kline_bars(&bars, &symbol);
    assert_eq!(ohlcv.len(), 2);
    assert_eq!(ohlcv[0].close, d(4010031, 3));
    assert_eq!(ohlcv[0].volume, 57657009000);
    assert_eq!(ohlcv[1].open, d(3985124, 3));
    // 2026-06-09 00:00 in China Standard Time
    assert_eq!(ohlcv[0].timestamp, 1780963200 - 28800);
}

#[test]
fn sina_test_supports_only_a_share() {
    let p = SinaFinanceProvider::new();
    assert!(p.supports(&Market::AShare));
    assert!(!p.supports(&Market::USStock));
}

#[test]
fn sina_request_addresses() {
    let p = SinaFinanceProvider::new();
    let s = Symbol::new("600519", Market::AShare);
    assert_eq!(p.quote_url(&s).unwrap(), "https://hq.sinajs.cn/list=sh600519");
    assert_eq!(
        p.kline_url(&s, Period::Day1).unwrap(),
        "https://money.finance.sina.com.cn/quotes_service/api/json_v2.php/CN_MarketData.getKLineData?symbol=sh600519&scale=240&ma=no&datalen=500"
    );
    match p.kline_url(&s, Period::Year5) {
        Err(DataError::MarketNotSupported { market }) => assert_eq!(market, "period Year5 not supported by Sina K-line"),
        other => panic!("unexpected {:?}", other),
    }
    assert!(matches!(p.quote_url(&Symbol::new("AAPL", Market::USStock)), Err(DataError::MarketNotSupported { .. })));
    assert_eq!(p.suggest_url(""), None);
    assert_eq!(
        p.suggest_url("茅台").unwrap(),
        "https://suggest3.sinajs.cn/suggest/type=&key=%E8%8C%85%E5%8F%B0&name=&market=&rn=8"
    );
}

fn sym() -> Symbol {
    Symbol::new("600519", Market::AShare)
}

#[test]
fn test_minute_symbol_bare_sh() {
    assert_eq!(AkShareProvider::minute_symbol(&sym()), "sh600519");
}

#[test]
fn test_minute_symbol_bare_sz() {
    assert_eq!(AkShareProvider::minute_symbol(&Symbol::new("000001", Market::AShare)), "sz000001");
}

#[test]
fn test_minute_symbol_with_sh_prefix() {
    assert_eq!(AkShareProvider::minute_symbol(&Symbol::new("sh600519", Market::AShare)), "sh600519");
}

#[test]
fn test_minute_symbol_with_sz_prefix() {
    assert_eq!(AkShareProvider::minute_symbol(&Symbol::new("sz000001", Market::AShare)), "sz000001");
}

#[test]
fn test_hist_symbol_strips_sh_prefix() {
    assert_eq!(AkShareProvider::hist_symbol(&Symbol::new("sh600519", Market::AShare)), "600519");
}

#[test]
fn test_hist_symbol_strips_sz_prefix() {
    assert_eq!(AkShareProvider::hist_symbol(&Symbol::new("sz000001", Market::AShare)), "000001");
}

#[test]
fn test_hist_symbol_bare_code() {
    assert_eq!(AkShareProvider::hist_symbol(&sym()), "600519");
}

#[test]
fn test_supports_ashare_only() {
    let p = AkShareProvider::new();
    assert!(p.supports(&Market::AShare));
    assert!(!p.supports(&Market::USStock));
    assert!(!p.supports(&Market::HKStock));
}

#[test]
fn akshare_request_addresses() {
    let p = AkShareProvider::with_base_url("http://h".to_string());
    assert_eq!(
        p.ohlcv_url(&sym(), Period::Min5).unwrap(),
        "http://h/api/public/stock_zh_a_minute?symbol=sh600519&period=5&adjust=qfq"
    );
    assert_eq!(
        p.ohlcv_url(&sym(), Period::Day1).unwrap(),
        "http://h/api/public/stock_zh_a_hist?symbol=600519&period=daily&start_date=19900101&end_date=29991231&adjust=qfq"
    );
    match p.ohlcv_url(&Symbol::new("AAPL", Market::USStock), Period::Day1) {
        Err(DataError::MarketNotSupported { market }) => assert_eq!(market, "US"),
        other => panic!("unexpected {:?}", other),
    }
}

#[test]
fn zhitu_test_supports_only_a_share() {
    let p = ZhituProvider::new("t".to_string());
    assert!(p.supports(&Market::AShare));
    assert!(!p.supports(&Market::USStock));
}

#[test]
fn test_is_index_symbol() {
    assert!(ZhituProvider::is_index_symbol(&Symbol::new("sh000001", Market::AShare)));
    assert!(ZhituProvider::is_index_symbol(&Symbol::new("sh000300", Market::AShare)));
    assert!(ZhituProvider::is_index_symbol(&Symbol::new("sz399001", Market::AShare)));
    assert!(ZhituProvider::is_index_symbol(&Symbol::new("sz399006", Market::AShare)));
    assert!(!ZhituProvider::is_index_symbol(&Symbol::new("600519", Market::AShare)));
    assert!(!ZhituProvider::is_index_symbol(&Symbol::new("000001", Market::AShare)));
    assert!(!ZhituProvider::is_index_symbol(&Symbol::new("AAPL", Market::USStock)));
}

#[test]
fn test_parse_timestamp_datetime() {
    let ts = ZhituProvider::parse_timestamp("2025-01-15 15:00:00").unwrap();
    // CST 15:00 is UTC 07:00
    assert_eq!(ts, 1736924400);
}

#[test]
fn test_parse_timestamp_date_only() {
    let ts = ZhituProvider::parse_timestamp("2025-01-15").unwrap();
    // CST midnight is 16:00 UTC the day before
    assert_eq!(ts, 1736870400);
}

#[test]
fn test_parse_timestamp_invalid() {
    assert!(ZhituProvider::parse_timestamp("not-a-date").is_none());
}

#[test]
fn zhitu_request_addresses() {
    let p = ZhituProvider::new("tok".to_string()).with_base_url("http://z".to_string());
    assert_eq!(p.quote_url(&Symbol::new("sh600519", Market::AShare)).unwrap(), "http://z/hs/real/ssjy/600519?token=tok");
    assert_eq!(
        p.ohlcv_url(&sym(), Period::Day1).unwrap(),
        "http://z/hs/latest/600519/d/fr?limit=500&token=tok"
    );
    match p.quote_url(&Symbol::new("sh000001", Market::AShare)) {
        Err(DataError::MarketNotSupported { market }) => assert_eq!(market, "ZhituAPI does not support index sh000001"),
        other => panic!("unexpected {:?}", other),
    }
    match p.ohlcv_url(&sym(), Period::Month3) {
        Err(DataError::MarketNotSupported { market }) => assert_eq!(market, "period Month3 not supported by ZhituAPI"),
        other => panic!("unexpected {:?}", other),
    }
}

#[test]
fn zhitu_client_addresses() {
    let c = ZhituClient::new("tok".to_string()).with_base_url("http://z".to_string());
    assert_eq!(c.url("/hs/list/all"), "http://z/hs/list/all?token=tok");
    assert_eq!(c.url_with_params("/p", &[("a", "1"), ("b", "2")]), "http://z/p?token=tok&a=1&b=2");
}

#[test]
fn router_backoff_schedule() {
    let net = DataError::Network("x".into());
    assert_eq!(backoff(0, 3, &net, 100), (Some(Wait::Millis(100)), 200));
    assert_eq!(backoff(1, 3, &net, 200), (Some(Wait::Millis(200)), 400));
    assert_eq!(backoff(2, 3, &net, 400), (None, 400));
    let limited = DataError::RateLimited { retry_after: 7 };
    assert_eq!(backoff(0, 3, &limited, 100), (Some(Wait::Seconds(7)), 100));
}

#[test]
fn error_messages() {
    assert_eq!(DataError::RateLimited { retry_after: 30 }.message(), "Rate limited, retry after 30s");
    assert_eq!(DataError::Parse("x".into()).message(), "Parse error: x");
}

#[test]
fn zhitu_extended_url_spans_the_lookback() {
    let p = ZhituProvider::new("tok".to_string()).with_base_url("http://h".to_string());
    assert_eq!(
        p.extended_ohlcv_url(&Symbol::new("sh600519", Market::AShare), Period::Month1, 19_797).unwrap(),
        "http://h/hs/history/600519/m/fr?st=20240214&et=20240315&token=tok"
    );
    assert!(p.extended_ohlcv_url(&Symbol::new("AAPL", Market::USStock), Period::Day1, 19_797).is_err());
    assert!(p.extended_ohlcv_url_now(&Symbol::new("600519", Market::AShare), Period::Year1).is_some());
    assert_eq!(fa::data::zhitu::extended_lookback_days(Period::Year5), 1825);
}

fn dec_of(x: f64) -> Dec {
    let d = rust_decimal::Decimal::from_f64_retain(x).unwrap();
    Dec::from_parts(d.mantissa(), d.scale()).unwrap()
}

fn raw(time: &str, o: f64, h: f64, l: f64, c: f64, v: u64) -> RawBar {
    RawBar {
        time: Some(time.to_string()),
        open: Some(dec_of(o)),
        high: Some(dec_of(h)),
        low: Some(dec_of(l)),
        close: Some(dec_of(c)),
        volume: v,
    }
}

#[test]
fn test_parse_quote_response() {
    let f = fa::data::zhitu::ZhituQuoteFields {
        p: Some(dec_of(1845.0)),
        yc: Some(dec_of(1830.0)),
        o: Some(dec_of(1832.0)),
        h: Some(dec_of(1860.0)),
        l: Some(dec_of(1820.0)),
        v: Some(12345678.0f64 as u64),
        pe: Some(dec_of(32.5)),
        sz: Some(dec_of(2317500000000.0)),
        t: Some("2025-01-15 15:00:00".to_string()),
    };
    let symbol = Symbol::new("600519", Market::AShare);
    let quote = fa::data::zhitu::zhitu_quote(&f, &symbol).unwrap();
    assert_eq!(quote.price, dec_of(1845.0));
    assert_eq!(quote.change, dec_of(15.0));
    assert_eq!(quote.open.unwrap(), dec_of(1832.0));
    assert_eq!(quote.high.unwrap(), dec_of(1860.0));
    assert_eq!(quote.low.unwrap(), dec_of(1820.0));
    assert_eq!(quote.volume, Some(12345678));
    assert_eq!(quote.pe_ratio.unwrap(), dec_of(32.5));
    // 15:00 China time is 07:00 UTC.
    assert_eq!(quote.timestamp, 1_736_924_400);
}

#[test]
fn zhitu_quote_requires_price_and_previous_close() {
    let mut f = fa::data::zhitu::ZhituQuoteFields {
        p: None,
        yc: Some(dec_of(1.0)),
        o: None,
        h: None,
        l: None,
        v: None,
        pe: None,
        sz: None,
        t: None,
    };
    let symbol = Symbol::new("600519", Market::AShare);
    match fa::data::zhitu::zhitu_quote(&f, &symbol) {
        Err(DataError::Parse(m)) => assert_eq!(m, "missing price field 'p'"),
        other => panic!("unexpected {:?}", other),
    }
    f.p = Some(dec_of(2.0));
    f.yc = None;
    match fa::data::zhitu::zhitu_quote(&f, &symbol) {
        Err(DataError::Parse(m)) => assert_eq!(m, "missing prev_close field 'yc'"),
        other => panic!("unexpected {:?}", other),
    }
    f.yc = Some(Dec::zero());
    let q = fa::data::zhitu::zhitu_quote(&f, &symbol).unwrap();
    assert_eq!(q.change_pct, Dec::zero());
    f.yc = Some(dec_of(1.0));
    let q = fa::data::zhitu::zhitu_quote(&f, &symbol).unwrap();
    assert_eq!(q.change_pct, Dec::new(100, 0));
}

#[test]
fn test_parse_ohlcv_response() {
    let bars = vec![
        raw("2025-01-15", 1832.0, 1860.0, 1820.0, 1845.0, 12345678.0f64 as u64),
        raw("2025-01-14", 1828.0, 1835.0, 1810.0, 1830.0, 9876543.0f64 as u64),
    ];
    let symbol = Symbol::new("600519", Market::AShare);
    let ohlcv = bars_from_raw(&bars, TimeFormat::ChinaTime, &symbol);
    assert_eq!(ohlcv.len(), 2);
    assert_eq!(ohlcv[0].open, dec_of(1832.0));
    assert_eq!(ohlcv[0].high, dec_of(1860.0));
    assert_eq!(ohlcv[0].low, dec_of(1820.0));
    assert_eq!(ohlcv[0].close, dec_of(1845.0));
    assert_eq!(ohlcv[0].volume, 12345678);
    assert_eq!(ohlcv[1].close, dec_of(1830.0));
    // Midnight China time is 16:00 UTC the day before.
    assert_eq!(ohlcv[0].timestamp, 1_736_870_400);
}

#[test]
fn test_parse_minute_json_valid() {
    let data = vec![
        raw("2026-05-30 09:31:00", 1800.0, 1810.0, 1795.0, 1805.0, 12345),
        raw("2026-05-30 09:32:00", 1805.0, 1815.0, 1800.0, 1812.0, 6789),
    ];
    let bars = bars_from_raw(&data, TimeFormat::UtcDateTime, &sym());
    assert_eq!(bars.len(), 2);
    assert_eq!(bars[0].volume, 12345);
    assert_eq!(bars[1].open, Dec::from_i64(1805));
}

#[test]
fn test_parse_minute_json_skips_invalid_date() {
    let data = vec![raw("not-a-date", 1.0, 1.0, 1.0, 1.0, 0)];
    assert_eq!(bars_from_raw(&data, TimeFormat::UtcDateTime, &sym()).len(), 0);
}

#[test]
fn test_parse_hist_json_valid() {
    let data = vec![raw("2026-05-30", 1800.0, 1820.0, 1790.0, 1810.0, 50000)];
    let bars = bars_from_raw(&data, TimeFormat::UtcDate, &sym());
    assert_eq!(bars.len(), 1);
    assert_eq!(bars[0].volume, 50000);
    assert_eq!(bars[0].high, Dec::from_i64(1820));
}

#[test]
fn test_parse_hist_json_skips_missing_fields() {
    let data = vec![RawBar {
        time: Some("2026-05-30".to_string()),
        open: Some(dec_of(1800.0)),
        high: None,
        low: None,
        close: None,
        volume: 0,
    }];
    assert_eq!(bars_from_raw(&data, TimeFormat::UtcDate, &sym()).len(), 0);
}

#[test]
fn test_fetch_ohlcv_unsupported_period() {
    let provider = ZhituProvider::new("test_token".to_string());
    let symbol = Symbol::new("600519", Market::AShare);
    let err = provider.ohlcv_url(&symbol, Period::Min1).unwrap_err();
    assert!(matches!(err, DataError::MarketNotSupported { .. }));
}

#[test]
fn test_fetch_quote_rejects_index() {
    let provider = ZhituProvider::new("test_token".to_string());
    let symbol = Symbol::new("sh000001", Market::AShare);
    let err = provider.quote_url(&symbol).unwrap_err();
    assert!(matches!(err, DataError::MarketNotSupported { .. }));
}

#[test]
fn test_fetch_ohlcv_rejects_index() {
    let provider = ZhituProvider::new("test_token".to_string());
    let symbol = Symbol::new("sh000001", Market::AShare);
    let err = provider.ohlcv_url(&symbol, Period::Day1).unwrap_err();
    assert!(matches!(err, DataError::MarketNotSupported { .. }));
}

#[test]
fn test_fetch_quote_unsupported_market() {
    let provider = ZhituProvider::new("test_token".to_string());
    let symbol = Symbol::new("AAPL", Market::USStock);
    let err = provider.quote_url(&symbol).unwrap_err();
    assert!(matches!(err, DataError::MarketNotSupported { .. }));
}

#[test]
fn test_fetch_ohlcv_us_stock_rejected() {
    let provider = SinaFinanceProvider::new();
    let symbol = Symbol::new("AAPL", Market::USStock);
    let err = provider.kline_url(&symbol, Period::Day1).unwrap_err();
    assert!(matches!(err, DataError::MarketNotSupported { .. }));
}
