//! The user interface languages and their strings.

use vstd::prelude::*;
use crate::text::{chars_eq, to_chars};

verus! {

/// A user interface language.
#[derive(Debug, Clone, Copy, PartialEq, Eq, Structural)]
pub enum Language {
    Zh,
    En,
}

impl Default for Language {
    /// Chinese.
    fn default() -> (r: Language)
        ensures
            r == Language::Zh,
    {
        Language::Zh
    }
}

/// The storage key of a language.
pub open spec fn language_key(l: Language) -> Seq<char> {
    match l {
        Language::Zh => seq!['z', 'h'],
        Language::En => seq!['e', 'n'],
    }
}

/// The language stored under a key.
pub open spec fn language_of_key(s: Seq<char>) -> Option<Language> {
    if s == seq!['z', 'h'] {
        Some(Language::Zh)
    } else if s == seq!['e', 'n'] {
        Some(Language::En)
    } else {
        None
    }
}

impl Language {
    /// The stable storage key: "zh" or "en".
    pub fn as_str(self) -> (r: &'static str)
        ensures
            r@ == language_key(self),
    {
        match self {
            Language::Zh => {
                proof {
                    reveal_strlit("zh");
                }
                "zh"
            },
            Language::En => {
                proof {
                    reveal_strlit("en");
                }
                "en"
            },
        }
    }

    /// The language stored under `s`, if any.
    pub fn parse(s: &str) -> (r: Option<Language>)
        ensures
            r == language_of_key(s@),
    {
        let k = to_chars(s);
        if chars_eq(&k, &['z', 'h']) {
            Some(Language::Zh)
        } else if chars_eq(&k, &['e', 'n']) {
            Some(Language::En)
        } else {
            None
        }
    }
}

impl core::str::FromStr for Language {
    type Err = ();

    /// The language stored under `s`, or `Err(())` for any other text.
    fn from_str(s: &str) -> (r: Result<Language, ()>)
        ensures
            match language_of_key(s@) {
                Some(l) => r == Ok::<Language, ()>(l),
                None => r == Err::<Language, ()>(()),
            },
    {
        match Language::parse(s) {
            Some(l) => Ok(l),
            None => Err(()),
        }
    }
}

/// Law: reading back the storage key of a language gives the language.
pub proof fn lemma_language_round_trip(l: Language)
    ensures
        language_of_key(language_key(l)) == Some(l),
{
    assert(seq!['e', 'n'] != seq!['z', 'h']) by {
        assert(seq!['e', 'n'][0] != seq!['z', 'h'][0]);
    }
}

/// All user-visible interface strings.
pub struct Strings {
    // Status bar
    pub data_source_label: &'static str,
    pub data_source_sina: &'static str,
    pub updated_label: &'static str,
    pub refresh_label: &'static str,
    pub never: &'static str,
    pub search_prompt: &'static str,
    // Watchlist
    pub watchlist_title: &'static str,
    pub add_title_prefix: &'static str,
    // Portfolio
    pub portfolio_title: &'static str,
    // Detail
    pub detail_title: &'static str,
    pub detail_loading: &'static str,
    pub detail_select_hint: &'static str,
    pub detail_latest: &'static str,
    pub detail_open: &'static str,
    pub detail_high: &'static str,
    pub detail_low: &'static str,
    pub detail_volume: &'static str,
    pub detail_vol_unit_yi: &'static str,
    pub detail_vol_unit_wan: &'static str,
    // Chart
    pub chart_loading: &'static str,
    pub chart_no_data: &'static str,
    pub chart_help: &'static str,
    pub chart_max_history: &'static str,
    // Backtest
    pub bt_config_title: &'static str,
    pub bt_result_title: &'static str,
    pub bt_trades_title: &'static str,
    pub bt_nav_help: &'static str,
    pub bt_status_idle: &'static str,
    pub bt_status_running: &'static str,
    pub bt_status_done: &'static str,
    pub bt_press_r: &'static str,
    pub bt_running_msg: &'static str,
    pub bt_no_trades: &'static str,
    pub bt_label_stock: &'static str,
    pub bt_label_strategy: &'static str,
    pub bt_label_cash: &'static str,
    pub bt_label_commission: &'static str,
    pub bt_label_slippage: &'static str,
    pub bt_label_period: &'static str,
    pub bt_label_total_return: &'static str,
    pub bt_label_annualized: &'static str,
    pub bt_label_max_drawdown: &'static str,
    pub bt_label_win_rate: &'static str,
    pub bt_label_sharpe: &'static str,
    pub bt_label_trades: &'static str,
    pub bt_label_initial: &'static str,
    pub bt_label_final: &'static str,
    pub bt_trade_date: &'static str,
    pub bt_trade_action: &'static str,
    pub bt_trade_price: &'static str,
    pub bt_trade_qty: &'static str,
    pub bt_trade_amount: &'static str,
    pub bt_trade_pnl: &'static str,
    pub bt_trade_buy: &'static str,
    pub bt_trade_sell: &'static str,
    // Settings
    pub settings_title: &'static str,
    pub settings_data_source: &'static str,
    pub settings_akshare_url: &'static str,
    pub settings_akshare_only: &'static str,
    pub settings_language: &'static str,
    pub settings_help: &'static str,
    pub settings_lang_zh: &'static str,
    pub settings_lang_en: &'static str,
    // Quit confirm
    pub quit_title: &'static str,
    pub quit_yes: &'static str,
    pub quit_no: &'static str,
    pub quit_help: &'static str,
}

/// The Chinese strings.
pub open spec fn zh_table() -> Strings {
    Strings {
        data_source_label: "数据源",
        data_source_sina: "新浪",
        updated_label: "Updated",
        refresh_label: "Refresh",
        never: "从未",
        search_prompt: "Search: ",
        watchlist_title: " 自选股 ",
        add_title_prefix: " Add: ",
        portfolio_title: " 持仓 ",
        detail_title: " Detail ",
        detail_loading: "加载中...",
        detail_select_hint: "Select a symbol to view details",
        detail_latest: "最新",
        detail_open: "开",
        detail_high: "高",
        detail_low: "低",
        detail_volume: "成交量",
        detail_vol_unit_yi: "亿手",
        detail_vol_unit_wan: "万手",
        chart_loading: "Loading data...",
        chart_no_data: "No data available",
        chart_help: "数据源: {} | F1-F5:分钟 | 1:日 5:周 m:月 q:季 y:年 | ←→:移动 | []:缩放 | Esc:返回",
        chart_max_history: "已显示最多历史数据",
        bt_config_title: " 回测配置 ",
        bt_result_title: " 回测结果 ",
        bt_trades_title: " 交易记录  ↑/↓ 滚动 ",
        bt_nav_help: "← → 切换策略  r 运行  Esc 返回",
        bt_status_idle: " [r 运行]",
        bt_status_running: " ⏳ 运行中...",
        bt_status_done: " ✅ 完成",
        bt_press_r: "按 r 开始回测",
        bt_running_msg: "正在运行回测...",
        bt_no_trades: " 暂无交易记录",
        bt_label_stock: "股票: ",
        bt_label_strategy: "策略: ",
        bt_label_cash: "资金: ",
        bt_label_commission: "手续费: ",
        bt_label_slippage: "滑点:   ",
        bt_label_period: "时间: ",
        bt_label_total_return: "总收益:  ",
        bt_label_annualized: "年化:  ",
        bt_label_max_drawdown: "最大回撤: ",
        bt_label_win_rate: "胜率:  ",
        bt_label_sharpe: "Sharpe:   ",
        bt_label_trades: "交易次数: ",
        bt_label_initial: "初始: ",
        bt_label_final: "最终: ",
        bt_trade_date: "日期",
        bt_trade_action: "操作",
        bt_trade_price: "价格",
        bt_trade_qty: "数量",
        bt_trade_amount: "金额",
        bt_trade_pnl: "盈亏",
        bt_trade_buy: "买入",
        bt_trade_sell: "卖出",
        settings_title: "⚙ 系统设置 (按 Esc 取消 / Enter 保存)",
        settings_data_source: "数据源      ",
        settings_akshare_url: "AkShare URL ",
        settings_akshare_only: "(仅 AkShare 使用)",
        settings_language: "语言/Language",
        settings_help: "↑↓ 切换 | Space 选择 | Enter 保存 | Esc 取消",
        settings_lang_zh: "中文",
        settings_lang_en: "English",
        quit_title: "确认退出？",
        quit_yes: "[ 确认 ]",
        quit_no: "[ 取消 ]",
        quit_help: "y/Enter 确认   n/Esc 取消",
    }
}

/// The English strings.
pub open spec fn en_table() -> Strings {
    Strings {
        data_source_label: "Source",
        data_source_sina: "Sina",
        updated_label: "Updated",
        refresh_label: "Refresh",
        never: "Never",
        search_prompt: "Search: ",
        watchlist_title: " Watchlist ",
        add_title_prefix: " Add: ",
        portfolio_title: " Portfolio ",
        detail_title: " Detail ",
        detail_loading: "Loading...",
        detail_select_hint: "Select a symbol to view details",
        detail_latest: "Last",
        detail_open: "Open",
        detail_high: "High",
        detail_low: "Low",
        detail_volume: "Volume",
        detail_vol_unit_yi: "100M lots",
        detail_vol_unit_wan: "10k lots",
        chart_loading: "Loading data...",
        chart_no_data: "No data available",
        chart_help: "Source: {} | F1-F5:min | 1:day 5:wk m:mo q:qtr y:yr | ←→:scroll | []:zoom | Esc:back",
        chart_max_history: "Max history loaded",
        bt_config_title: " Backtest Config ",
        bt_result_title: " Backtest Results ",
        bt_trades_title: " Trades  ↑/↓ scroll ",
        bt_nav_help: "← → strategy  r run  Esc back",
        bt_status_idle: " [r run]",
        bt_status_running: " ⏳ Running...",
        bt_status_done: " ✅ Done",
        bt_press_r: "Press r to run backtest",
        bt_running_msg: "Running backtest...",
        bt_no_trades: " No trades",
        bt_label_stock: "Stock: ",
        bt_label_strategy: "Strategy: ",
        bt_label_cash: "Cash: ",
        bt_label_commission: "Commission: ",
        bt_label_slippage: "Slippage:   ",
        bt_label_period: "Period: ",
        bt_label_total_return: "Return:  ",
        bt_label_annualized: "Ann.Ret: ",
        bt_label_max_drawdown: "Max DD:   ",
        bt_label_win_rate: "Win Rate: ",
        bt_label_sharpe: "Sharpe:   ",
        bt_label_trades: "Trades:   ",
        bt_label_initial: "Initial: ",
        bt_label_final: "Final:   ",
        bt_trade_date: "Date",
        bt_trade_action: "Action",
        bt_trade_price: "Price",
        bt_trade_qty: "Qty",
        bt_trade_amount: "Amount",
        bt_trade_pnl: "PnL",
        bt_trade_buy: "Buy",
        bt_trade_sell: "Sell",
        settings_title: "⚙ Settings (Esc cancel / Enter save)",
        settings_data_source: "Data Source  ",
        settings_akshare_url: "AkShare URL  ",
        settings_akshare_only: "(AkShare only)",
        settings_language: "语言/Language",
        settings_help: "↑↓ nav | Space select | Enter save | Esc cancel",
        settings_lang_zh: "中文",
        settings_lang_en: "English",
        quit_title: "Quit?",
        quit_yes: "[ Yes ]",
        quit_no: "[ No  ]",
        quit_help: "y/Enter confirm   n/Esc cancel",
    }
}

impl Strings {
    /// The Chinese strings.
    pub fn zh() -> (r: Strings)
        ensures
            r == zh_table(),
    {
        Strings {
            data_source_label: "数据源",
            data_source_sina: "新浪",
            updated_label: "Updated",
            refresh_label: "Refresh",
            never: "从未",
            search_prompt: "Search: ",
            watchlist_title: " 自选股 ",
            add_title_prefix: " Add: ",
            portfolio_title: " 持仓 ",
            detail_title: " Detail ",
            detail_loading: "加载中...",
            detail_select_hint: "Select a symbol to view details",
            detail_latest: "最新",
            detail_open: "开",
            detail_high: "高",
            detail_low: "低",
            detail_volume: "成交量",
            detail_vol_unit_yi: "亿手",
            detail_vol_unit_wan: "万手",
            chart_loading: "Loading data...",
            chart_no_data: "No data available",
            chart_help: "数据源: {} | F1-F5:分钟 | 1:日 5:周 m:月 q:季 y:年 | ←→:移动 | []:缩放 | Esc:返回",
            chart_max_history: "已显示最多历史数据",
            bt_config_title: " 回测配置 ",
            bt_result_title: " 回测结果 ",
            bt_trades_title: " 交易记录  ↑/↓ 滚动 ",
            bt_nav_help: "← → 切换策略  r 运行  Esc 返回",
            bt_status_idle: " [r 运行]",
            bt_status_running: " ⏳ 运行中...",
            bt_status_done: " ✅ 完成",
            bt_press_r: "按 r 开始回测",
            bt_running_msg: "正在运行回测...",
            bt_no_trades: " 暂无交易记录",
            bt_label_stock: "股票: ",
            bt_label_strategy: "策略: ",
            bt_label_cash: "资金: ",
            bt_label_commission: "手续费: ",
            bt_label_slippage: "滑点:   ",
            bt_label_period: "时间: ",
            bt_label_total_return: "总收益:  ",
            bt_label_annualized: "年化:  ",
            bt_label_max_drawdown: "最大回撤: ",
            bt_label_win_rate: "胜率:  ",
            bt_label_sharpe: "Sharpe:   ",
            bt_label_trades: "交易次数: ",
            bt_label_initial: "初始: ",
            bt_label_final: "最终: ",
            bt_trade_date: "日期",
            bt_trade_action: "操作",
            bt_trade_price: "价格",
            bt_trade_qty: "数量",
            bt_trade_amount: "金额",
            bt_trade_pnl: "盈亏",
            bt_trade_buy: "买入",
            bt_trade_sell: "卖出",
            settings_title: "⚙ 系统设置 (按 Esc 取消 / Enter 保存)",
            settings_data_source: "数据源      ",
            settings_akshare_url: "AkShare URL ",
            settings_akshare_only: "(仅 AkShare 使用)",
            settings_language: "语言/Language",
            settings_help: "↑↓ 切换 | Space 选择 | Enter 保存 | Esc 取消",
            settings_lang_zh: "中文",
            settings_lang_en: "English",
            quit_title: "确认退出？",
            quit_yes: "[ 确认 ]",
            quit_no: "[ 取消 ]",
            quit_help: "y/Enter 确认   n/Esc 取消",
        }
    }

    /// The English strings.
    pub fn en() -> (r: Strings)
        ensures
            r == en_table(),
    {
        Strings {
            data_source_label: "Source",
            data_source_sina: "Sina",
            updated_label: "Updated",
            refresh_label: "Refresh",
            never: "Never",
            search_prompt: "Search: ",
            watchlist_title: " Watchlist ",
            add_title_prefix: " Add: ",
            portfolio_title: " Portfolio ",
            detail_title: " Detail ",
            detail_loading: "Loading...",
            detail_select_hint: "Select a symbol to view details",
            detail_latest: "Last",
            detail_open: "Open",
            detail_high: "High",
            detail_low: "Low",
            detail_volume: "Volume",
            detail_vol_unit_yi: "100M lots",
            detail_vol_unit_wan: "10k lots",
            chart_loading: "Loading data...",
            chart_no_data: "No data available",
            chart_help: "Source: {} | F1-F5:min | 1:day 5:wk m:mo q:qtr y:yr | ←→:scroll | []:zoom | Esc:back",
            chart_max_history: "Max history loaded",
            bt_config_title: " Backtest Config ",
            bt_result_title: " Backtest Results ",
            bt_trades_title: " Trades  ↑/↓ scroll ",
            bt_nav_help: "← → strategy  r run  Esc back",
            bt_status_idle: " [r run]",
            bt_status_running: " ⏳ Running...",
            bt_status_done: " ✅ Done",
            bt_press_r: "Press r to run backtest",
            bt_running_msg: "Running backtest...",
            bt_no_trades: " No trades",
            bt_label_stock: "Stock: ",
            bt_label_strategy: "Strategy: ",
            bt_label_cash: "Cash: ",
            bt_label_commission: "Commission: ",
            bt_label_slippage: "Slippage:   ",
            bt_label_period: "Period: ",
            bt_label_total_return: "Return:  ",
            bt_label_annualized: "Ann.Ret: ",
            bt_label_max_drawdown: "Max DD:   ",
            bt_label_win_rate: "Win Rate: ",
            bt_label_sharpe: "Sharpe:   ",
            bt_label_trades: "Trades:   ",
            bt_label_initial: "Initial: ",
            bt_label_final: "Final:   ",
            bt_trade_date: "Date",
            bt_trade_action: "Action",
            bt_trade_price: "Price",
            bt_trade_qty: "Qty",
            bt_trade_amount: "Amount",
            bt_trade_pnl: "PnL",
            bt_trade_buy: "Buy",
            bt_trade_sell: "Sell",
            settings_title: "⚙ Settings (Esc cancel / Enter save)",
            settings_data_source: "Data Source  ",
            settings_akshare_url: "AkShare URL  ",
            settings_akshare_only: "(AkShare only)",
            settings_language: "语言/Language",
            settings_help: "↑↓ nav | Space select | Enter save | Esc cancel",
            settings_lang_zh: "中文",
            settings_lang_en: "English",
            quit_title: "Quit?",
            quit_yes: "[ Yes ]",
            quit_no: "[ No  ]",
            quit_help: "y/Enter confirm   n/Esc cancel",
        }
    }

    /// The strings of `language`.
    pub fn for_language(language: Language) -> (r: Strings)
        ensures
            r == (match language {
                Language::Zh => zh_table(),
                Language::En => en_table(),
            }),
    {
        match language {
            Language::Zh => Strings::zh(),
            Language::En => Strings::en(),
        }
    }
}

} // verus!
