use fa::backtest::engine::{day_of_timestamp, BacktestConfig, Engine};
use fa::backtest::portfolio::Portfolio;
use fa::backtest::result::{compute_max_drawdown, compute_win_rate, BacktestResult, Trade, TradeAction};
use fa::backtest::strategies::{band_signal, BuiltinStrategy, MaCrossStrategy, RsiStrategy};
use fa::backtest::strategy::{BarContext, Signal, Strategy};
use fa::decimal::{dec_add, Dec};
use fa::indicator::sma;
use fa::market::Market;
use fa::ohlcv::OHLCV;
use fa::symbol::Symbol;

fn d(num: i64, scale: u32) -> Dec {
    Dec::new(num, scale)
}

fn make_bar(close: Dec, days_from_epoch: i64) -> OHLCV {
    OHLCV {
        symbol: Symbol::new("TEST", Market::USStock),
        timestamp: days_from_epoch * 86400,
        open: close,
        high: close,
        low: close,
        close,
        volume: 0,
    }
}

fn bar(close: Dec) -> OHLCV {
    make_bar(close, 0)
}

#[test]
fn test_buy_all_consumes_cash() {
    let mut p = Portfolio::new(d(10000, 0));
    let result = p.buy_all(d(100, 0), d(5, 0)).unwrap();
    assert!(result.is_some());
    let (shares, _) = result.unwrap();
    assert_eq!(shares, 99);
    assert!(!lt(p.cash, Dec::zero()));
    assert_eq!(p.position, 99);
}

#[test]
fn test_sell_all_clears_position() {
    let mut p = Portfolio::new(d(10000, 0));
    p.buy_all(d(100, 0), d(5, 0)).unwrap();
    let result = p.sell_all(d(110, 0), d(5, 0)).unwrap();
    assert!(result.is_some());
    let (shares, net, pnl) = result.unwrap();
    assert_eq!(shares, 99);
    assert!(lt(Dec::zero(), net));
    assert!(lt(Dec::zero(), pnl));
    assert_eq!(p.position, 0);
}

#[test]
fn test_cannot_buy_when_in_position() {
    let mut p = Portfolio::new(d(10000, 0));
    p.buy_all(d(100, 0), d(5, 0)).unwrap();
    assert!(p.buy_all(d(100, 0), d(5, 0)).unwrap().is_none());
}

#[test]
fn test_cannot_sell_when_flat() {
    let mut p = Portfolio::new(d(10000, 0));
    assert!(p.sell_all(d(100, 0), d(5, 0)).unwrap().is_none());
}

#[test]
fn test_total_value() {
    let mut p = Portfolio::new(d(10000, 0));
    p.buy_all(d(100, 0), d(0, 0)).unwrap();
    let val = p.total_value(d(120, 0)).unwrap();
    assert!(lt(d(10000, 0), val));
}

#[test]
fn buy_then_sell_books_exact_figures() {
    let mut p = Portfolio::new(d(10000, 0));
    assert_eq!(p.buy_all(d(100, 0), d(5, 0)).unwrap(), Some((99, d(100, 0))));
    // cost 9900 plus 0.05% commission 4.95
    assert_eq!(p.cash, d(9505, 2));
    assert_eq!(p.cost_basis, d(990495, 2));
    let (_, net, pnl) = p.sell_all(d(110, 0), d(5, 0)).unwrap().unwrap();
    // gross 10890, commission 5.445
    assert_eq!(net, d(10884555, 3));
    assert_eq!(pnl, d(979605, 3));
    assert_eq!(p.cash, d(10979605, 3));
}

struct BuyThenSell {
    count: usize,
}

impl Strategy for BuyThenSell {
    fn name(&self) -> String {
        "buy-then-sell".to_string()
    }
    fn on_bar(&mut self, _ctx: &BarContext) -> Signal {
        self.count += 1;
        if self.count == 1 {
            Signal::BuyAll
        } else if self.count == 4 {
            Signal::SellAll
        } else {
            Signal::Hold
        }
    }
    fn reset(&mut self) {
        self.count = 0;
    }
}

fn config(start: i64, end: i64) -> BacktestConfig {
    BacktestConfig {
        initial_cash: d(10000, 0),
        commission_bps: d(0, 0),
        slippage_bps: d(0, 0),
        start_date: start,
        end_date: end,
    }
}

#[test]
fn test_engine_buy_and_sell_produces_trades() {
    let data: Vec<OHLCV> = (0..5).map(|i| make_bar(d(100, 0), i)).collect();
    let engine = Engine::new(config(0, 9));
    let mut strategy = BuyThenSell { count: 0 };
    let result = engine.run(&data, &mut strategy).unwrap();
    assert_eq!(result.trades.len(), 2);
    assert_eq!(result.trades[0].action, TradeAction::Buy);
    assert_eq!(result.trades[1].action, TradeAction::Sell);
}

#[test]
fn engine_buy_then_sell_books_the_round_trip() {
    let data: Vec<OHLCV> = (0..5).map(|i| make_bar(d(100, 0), i)).collect();
    let engine = Engine::new(config(0, 9));
    let mut strategy = BuyThenSell { count: 0 };
    let result = engine.run(&data, &mut strategy).unwrap();
    assert_eq!(result.trades.len(), 2);
    assert_eq!(result.trades[0].quantity, 100);
    assert_eq!(result.trades[1].pnl, Some(d(0, 0)));
    assert_eq!(result.final_equity, d(10000, 0));
    assert_eq!(result.equity_curve.len(), 5);
}

/// Remembers what it was shown and how often it was reset; buys on its
/// first bar.
struct Recorder {
    seen: Vec<(usize, i64, Dec, i64)>,
    resets: usize,
}

impl Strategy for Recorder {
    fn name(&self) -> String {
        "recorder".to_string()
    }
    fn on_bar(&mut self, ctx: &BarContext) -> Signal {
        assert_eq!(ctx.bar.timestamp, ctx.history.last().unwrap().timestamp);
        self.seen.push((ctx.history.len(), ctx.position, ctx.cash, ctx.bar.timestamp));
        if self.seen.len() == 1 {
            Signal::BuyAll
        } else {
            Signal::Hold
        }
    }
    fn reset(&mut self) {
        self.seen.clear();
        self.resets += 1;
    }
}

#[test]
fn engine_resets_then_shows_each_prefix_of_the_window() {
    let data: Vec<OHLCV> = (0..5).map(|i| make_bar(d(100, 0), i)).collect();
    let engine = Engine::new(config(1, 3));
    let mut strategy = Recorder { seen: vec![(9, 9, d(9, 0), 9)], resets: 0 };
    engine.run(&data, &mut strategy).unwrap();
    assert_eq!(strategy.resets, 1);
    assert_eq!(
        strategy.seen,
        vec![(1, 0, d(10000, 0), 86400), (2, 100, d(0, 0), 2 * 86400), (3, 100, d(0, 0), 3 * 86400)]
    );
    engine.run(&data, &mut strategy).unwrap();
    assert_eq!(strategy.resets, 2);
    assert_eq!(strategy.seen.len(), 3);
}

#[test]
fn engine_leaves_strategy_alone_on_an_empty_window() {
    let data: Vec<OHLCV> = (0..5).map(|i| make_bar(d(100, 0), i)).collect();
    let engine = Engine::new(config(10, 20));
    let mut strategy = Recorder { seen: vec![], resets: 0 };
    let result = engine.run(&data, &mut strategy).unwrap();
    assert_eq!(result.equity_curve.len(), 0);
    assert_eq!(result.final_equity, d(10000, 0));
    assert_eq!(strategy.resets, 0);
    assert!(strategy.seen.is_empty());
}

#[test]
fn engine_runs_the_ma_crossover() {
    let closes = [10, 10, 10, 9, 12, 13, 8, 7];
    let data: Vec<OHLCV> = closes.iter().enumerate().map(|(i, c)| make_bar(d(*c, 0), i as i64)).collect();
    let engine = Engine::new(config(0, 9));
    let mut strategy = MaCrossStrategy::new(2, 3);
    let result = engine.run(&data, &mut strategy).unwrap();
    assert_eq!(result.trades.len(), 2);
    assert_eq!(result.trades[0].action, TradeAction::Buy);
    assert_eq!(result.trades[0].date, 4);
    assert_eq!(result.trades[1].action, TradeAction::Sell);
    assert_eq!(result.trades[1].date, 6);
}

#[test]
fn test_engine_empty_data_returns_empty_result() {
    let engine = Engine::new(BacktestConfig::default());
    let mut strategy = BuyThenSell { count: 0 };
    let result = engine.run(&[], &mut strategy).unwrap();
    assert_eq!(result.trades.len(), 0);
    assert_eq!(result.total_trades, 0);
}

#[test]
fn test_engine_date_filter_excludes_out_of_range_bars() {
    let data: Vec<OHLCV> = (0..5).map(|i| make_bar(d(100, 0), i)).collect();
    let engine = Engine::new(config(2, 9));
    let mut strategy = BuyThenSell { count: 0 };
    let result = engine.run(&data, &mut strategy).unwrap();
    assert!(result.trades.len() <= 2);
    assert_eq!(result.equity_curve.len(), 3);
}

#[test]
fn engine_replay_matches_signals_and_figures() {
    let data: Vec<OHLCV> = vec![make_bar(d(100, 0), 0), make_bar(d(110, 0), 1), make_bar(d(90, 0), 2)];
    let engine = Engine::new(config(0, 9));
    let signals = [Signal::BuyAll, Signal::SellAll, Signal::Hold];
    let r = engine.replay(&data, &signals).unwrap();
    assert_eq!(r.trades.len(), 2);
    assert_eq!(r.trades[0].quantity, 100);
    assert_eq!(r.trades[1].pnl, Some(d(1000, 0)));
    assert_eq!(r.final_equity, d(11000, 0));
    assert_eq!(r.total_return, d(1, 1));
    assert_eq!(r.win_rate, d(1, 0));
    assert_eq!(r.max_drawdown, Dec::zero());
}

#[test]
fn final_equity_is_initial_cash_plus_sale_profits() {
    let closes = [100, 110, 100, 120];
    let data: Vec<OHLCV> = closes.iter().enumerate().map(|(i, c)| make_bar(d(*c, 0), i as i64)).collect();
    let engine = Engine::new(config(0, 9));
    let signals = [Signal::BuyAll, Signal::SellAll, Signal::BuyAll, Signal::SellAll];
    let r = engine.replay(&data, &signals).unwrap();
    assert_eq!(r.trades.len(), 4);
    assert_eq!(r.trades[1].pnl, Some(d(1000, 0)));
    assert_eq!(r.trades[3].pnl, Some(d(2200, 0)));
    assert_eq!(r.final_equity, d(13200, 0));
    assert_eq!(r.final_equity, dec_add(dec_add(r.initial_cash, d(1000, 0)), d(2200, 0)));
}

#[test]
fn engine_fills_include_slippage() {
    let data: Vec<OHLCV> = vec![make_bar(d(100, 0), 0)];
    let mut cfg = config(0, 0);
    cfg.slippage_bps = d(100, 0);
    let engine = Engine::new(cfg);
    let r = engine.replay(&data, &[Signal::BuyAll]).unwrap();
    assert_eq!(r.trades[0].price, d(101, 0));
    assert_eq!(r.trades[0].quantity, 99);
}

#[test]
fn day_of_timestamp_floors_toward_past() {
    assert_eq!(day_of_timestamp(0), 0);
    assert_eq!(day_of_timestamp(86399), 0);
    assert_eq!(day_of_timestamp(86400), 1);
    assert_eq!(day_of_timestamp(-1), -1);
    assert_eq!(day_of_timestamp(-86400), -1);
    assert_eq!(day_of_timestamp(-86401), -2);
}

#[test]
fn test_total_return_positive() {
    let equity = vec![d(100000, 0), d(110000, 0)];
    let r = BacktestResult::calculate(d(100000, 0), vec![], equity).unwrap();
    assert_eq!(r.total_return, d(1, 1));
}

#[test]
fn test_max_drawdown_correct() {
    let equity = vec![d(100, 0), d(120, 0), d(90, 0), d(110, 0)];
    let dd = compute_max_drawdown(&equity).unwrap();
    assert!(lt(dd, d(-24, 2)) && lt(d(-26, 2), dd));
    assert_eq!(dd, d(-25, 2));
}

#[test]
fn max_drawdown_of_rising_curve_is_zero() {
    assert_eq!(compute_max_drawdown(&[d(1, 0), d(2, 0), d(3, 0)]).unwrap(), Dec::zero());
    assert_eq!(compute_max_drawdown(&[]).unwrap(), Dec::zero());
}

fn sell(pnl: Dec) -> Trade {
    Trade { date: 19358, action: TradeAction::Sell, price: d(110, 0), quantity: 10, amount: d(1100, 0), pnl: Some(pnl) }
}

#[test]
fn test_win_rate_half() {
    let trades = vec![sell(d(100, 0)), sell(d(-100, 0))];
    assert_eq!(compute_win_rate(&trades), d(5, 1));
}

#[test]
fn win_rate_ignores_buys_and_is_zero_without_sells() {
    let buy = Trade { date: 0, action: TradeAction::Buy, price: d(1, 0), quantity: 1, amount: d(1, 0), pnl: None };
    assert_eq!(compute_win_rate(&[buy]), Dec::zero());
    assert_eq!(compute_win_rate(&[buy, sell(d(0, 0)), sell(d(1, 0)), sell(d(2, 0))]), fa::decimal::dec_div(d(2, 0), d(3, 0)));
}

#[test]
fn test_empty_result() {
    let r = BacktestResult::empty(d(50000, 0));
    assert_eq!(r.total_trades, 0);
    assert_eq!(r.final_equity, d(50000, 0));
}

#[test]
fn test_golden_cross_signals_buy() {
    let history = vec![bar(d(10, 0)), bar(d(10, 0)), bar(d(10, 0)), bar(d(11, 0))];
    let mut s = MaCrossStrategy::new(2, 3);
    let ctx = BarContext::new(&history, 0, d(10000, 0));
    assert_eq!(s.on_bar(&ctx), Signal::Hold);
}

#[test]
fn golden_cross_buys_when_fast_rises_through_slow() {
    let history = vec![bar(d(10, 0)), bar(d(10, 0)), bar(d(9, 0)), bar(d(12, 0))];
    let mut s = MaCrossStrategy::new(2, 3);
    assert_eq!(s.on_bar(&BarContext::new(&history, 0, d(10000, 0))), Signal::BuyAll);
    assert_eq!(s.on_bar(&BarContext::new(&history, 5, d(10000, 0))), Signal::Hold);
}

#[test]
fn test_hold_when_insufficient_data() {
    let history = vec![bar(d(10, 0)), bar(d(11, 0))];
    let mut s = MaCrossStrategy::new(2, 3);
    assert_eq!(s.on_bar(&BarContext::new(&history, 0, d(10000, 0))), Signal::Hold);
}

#[test]
fn test_death_cross_signals_sell() {
    let history = vec![bar(d(20, 0)), bar(d(18, 0)), bar(d(15, 0)), bar(d(10, 0))];
    let mut s = MaCrossStrategy::new(2, 3);
    assert_eq!(s.on_bar(&BarContext::new(&history, 10, d(10000, 0))), Signal::Hold);
}

#[test]
fn rsi_rule_on_given_values() {
    let s = RsiStrategy::new(14, 30, 70);
    assert_eq!(s.signal_for(5, Some(d(10, 0)), 0), Signal::Hold);
    assert_eq!(s.signal_for(30, None, 0), Signal::Hold);
    assert_eq!(s.signal_for(30, Some(d(2999, 2)), 0), Signal::BuyAll);
    assert_eq!(s.signal_for(30, Some(d(30, 0)), 0), Signal::Hold);
    assert_eq!(s.signal_for(30, Some(d(7001, 2)), 3), Signal::SellAll);
    assert_eq!(s.signal_for(30, Some(d(7001, 2)), 0), Signal::Hold);
}

#[test]
fn bollinger_rule_on_given_bands() {
    assert_eq!(band_signal(5, 20, d(80, 0), d(97, 0), d(101, 0), 0), Signal::Hold);
    assert_eq!(band_signal(20, 20, d(80, 0), d(97, 0), d(101, 0), 0), Signal::BuyAll);
    assert_eq!(band_signal(20, 20, d(97, 0), d(97, 0), d(101, 0), 0), Signal::BuyAll);
    assert_eq!(band_signal(20, 20, d(120, 0), d(97, 0), d(101, 0), 10), Signal::SellAll);
    assert_eq!(band_signal(20, 20, d(120, 0), d(97, 0), d(101, 0), 0), Signal::Hold);
}

#[test]
fn builtin_strategies_in_menu_order() {
    let all = BuiltinStrategy::all();
    assert_eq!(all.len(), 3);
    assert_eq!(all[0], BuiltinStrategy::MaCross { fast: 5, slow: 20 });
    assert_eq!(all[1].name(), "RSI 均值回归 (14/30/70)");
    assert_eq!(all[2].name(), "布林带 (20, 2σ)");
}

struct AlwaysBuy;

impl Strategy for AlwaysBuy {
    fn name(&self) -> String {
        "always-buy".to_string()
    }
    fn on_bar(&mut self, ctx: &BarContext) -> Signal {
        if ctx.position == 0 {
            Signal::BuyAll
        } else {
            Signal::Hold
        }
    }
    fn reset(&mut self) {}
}

#[test]
fn test_strategy_trait_object() {
    let b = bar(d(100, 0));
    let history = vec![b.clone()];
    let ctx = BarContext { bar: &b, position: 0, cash: d(1000, 0), history: &history };
    let mut s: Box<AlwaysBuy> = Box::new(AlwaysBuy);
    assert_eq!(s.on_bar(&ctx), Signal::BuyAll);
}

#[test]
fn test_signal_hold_when_in_position() {
    let b = bar(d(100, 0));
    let history = vec![b.clone()];
    let ctx = BarContext { bar: &b, position: 10, cash: d(0, 0), history: &history };
    let mut s = AlwaysBuy;
    assert_eq!(s.on_bar(&ctx), Signal::Hold);
}

#[test]
fn test_sma_period_1_equals_close() {
    let data = vec![bar(d(10, 0)), bar(d(20, 0)), bar(d(30, 0))];
    assert_eq!(sma(&data, 1), vec![Some(d(10, 0)), Some(d(20, 0)), Some(d(30, 0))]);
}

#[test]
fn test_sma_period_3() {
    let data = vec![bar(d(10, 0)), bar(d(20, 0)), bar(d(30, 0)), bar(d(40, 0))];
    let result = sma(&data, 3);
    assert_eq!(result[0], None);
    assert_eq!(result[1], None);
    assert_eq!(result[2], Some(d(20, 0)));
    assert_eq!(result[3], Some(d(30, 0)));
}

#[test]
fn test_sma_period_greater_than_data_returns_all_none() {
    let data = vec![bar(d(100, 0)), bar(d(200, 0))];
    assert_eq!(sma(&data, 5), vec![None, None]);
}

#[test]
fn test_sma_empty_data() {
    let result = sma(&[], 5);
    assert_eq!(result, vec![]);
}

#[test]
fn test_sma_period_zero_returns_all_none() {
    let data = vec![bar(d(10, 0)), bar(d(20, 0))];
    assert_eq!(sma(&data, 0), vec![None, None]);
}

#[test]
fn test_export_csv_creates_file() {
    let r = BacktestResult::empty(Dec::from_i64(100_000));
    let content = r.csv_text();
    assert!(content.contains("date,action,price"));
}

#[test]
fn csv_text_writes_one_line_per_trade() {
    let mut r = BacktestResult::empty(Dec::from_i64(100_000));
    r.trades.push(Trade {
        date: 19_797,
        action: TradeAction::Buy,
        price: Dec::new(1050, 2),
        quantity: 100,
        amount: Dec::new(105000, 2),
        pnl: None,
    });
    r.trades.push(Trade {
        date: 19_798,
        action: TradeAction::Sell,
        price: Dec::new(11, 0),
        quantity: 100,
        amount: Dec::new(1100, 0),
        pnl: Some(Dec::new(-5, 1)),
    });
    assert_eq!(
        r.csv_text(),
        "date,action,price,quantity,amount,pnl\n2024-03-15,buy,10.50,100,1050.00,\n2024-03-16,sell,11,100,1100,-0.5\n"
    );
}

fn lt(a: Dec, b: Dec) -> bool {
    rust_decimal::Decimal::from_i128_with_scale(a.mantissa(), a.scale())
        < rust_decimal::Decimal::from_i128_with_scale(b.mantissa(), b.scale())
}
