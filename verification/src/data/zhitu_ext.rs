//! Records of the extended ZhituAPI endpoints (stock lists, pools,
//! company details, trading data, indicators), with every figure as the
//! text the API sends; and the request addresses of its client.

use vstd::prelude::*;
use crate::text::{cat, from_chars, to_chars, append_chars};

verus! {

/// A `StockInfo` record of the API.
#[derive(Debug)]
pub struct StockInfo {
    pub dm: String, // 代码 (stock code)
    pub mc: String, // 名称 (name)
    pub jys: String, // 交易所 (exchange)
}

/// A `NewStockInfo` record of the API.
#[derive(Debug)]
pub struct NewStockInfo {
    pub zqdm: String, // 证券代码
    pub zqjc: String, // 证券简称
    pub sgdm: String, // 申购代码
    pub fxsl: String, // 发行数量
    pub sgrq: String, // 申购日期
    pub fxjg: String, // 发行价格
    pub ssrq: String, // 上市日期
    pub syl: String, // 市盈率
    pub wszql: String, // 网上申购量
}

/// A `SectorInfo` record of the API.
#[derive(Debug)]
pub struct SectorInfo {
    pub dm: String, // 板块代码
    pub mc: String, // 板块名称
    pub jys: String, // 交易所
}

/// A `PrimarySector` record of the API.
#[derive(Debug)]
pub struct PrimarySector {
    pub mc: String, // 一级板块名称
}

/// A `IndexNode` record of the API.
#[derive(Debug)]
pub struct IndexNode {
    pub name: String,
    pub code: String,
    pub type1: String,
    pub type2: String,
    pub level: String,
    pub pcode: String,
    pub pname: String,
    pub isleaf: String,
}

/// A `IndexMembership` record of the API.
#[derive(Debug)]
pub struct IndexMembership {
    pub code: String,
    pub name: String,
}

/// A `PoolStock` record of the API.
#[derive(Debug)]
pub struct PoolStock {
    pub dm: String, // 代码
    pub mc: String, // 名称
    pub p: String, // 价格 (price)
    pub zf: String, // 涨跌幅 (change %)
    pub cje: String, // 成交额 (turnover)
    pub lt: String, // 流通市值 (float market cap)
    pub zsz: String, // 总市值 (total market cap)
    pub hs: String, // 换手率 (turnover rate)
    pub lbc: String, // 连板次数 (consecutive limit count)
    pub fbt: String, // 封板/跌停时间
    pub lbt: String, // 连板天数
    pub zj: String, // 封单金额 (seal amount)
    pub zbc: String, // 炸板次数 (broken count)
    pub tj: String, // 统计
    pub pe: String, // 市盈率
    pub ztp: String, // 涨停价
    pub zs: String, // 涨速
    pub nh: String, // 新高
    pub lb: String, // 量比
    pub kb: String, // 开板日数
    pub od: String,
    pub ipod: String,
    pub zdf: String, // 振幅
}

/// A `CompanyProfile` record of the API.
#[derive(Debug)]
pub struct CompanyProfile {
    pub name: String,
    pub ename: String,
    pub market: String,
    pub idea: String,
    pub ldate: String,
    pub sprice: String,
    pub principal: String,
    pub instype: String,
    pub secre: String,
    pub desc: String,
    pub bscope: String,
    pub printype: String,
    pub rprice: String,
    pub rtype: String,
    pub instype2: String,
    pub organ: String,
    pub lname: String,
    pub oname: String,
    pub rdprice: String,
    pub rnum: String,
    pub rprice2: String,
    pub rdnum: String,
    pub prov: String,
    pub area: String,
    pub industry: String,
    pub desc2: String,
    pub btype: String,
    pub tprice: String,
    pub tamount: String,
    pub tdesc: String,
    pub rdate: String,
    pub website: String,
    pub email: String,
    pub tel: String,
    pub fax: String,
    pub addr: String,
    pub desc3: String,
}

/// A `Executive` record of the API.
#[derive(Debug)]
pub struct Executive {
    pub name: String,
    pub title: String,
    pub sdate: String,
    pub edate: String,
    pub sex: String,
    pub age: String,
    pub pay: String,
}

/// A `DividendRecord` record of the API.
#[derive(Debug)]
pub struct DividendRecord {
    pub sdate: String,
    pub give: String,
    pub change: String,
    pub send: String,
    pub line: String,
    pub cdate: String,
    pub edate: String,
    pub hdate: String,
}

/// A `DividendDonation` record of the API.
#[derive(Debug)]
pub struct DividendDonation {
    pub sdate: String,
    pub kind: String, // "type" in the API
    pub price: String,
    pub tprice: String,
    pub fprice: String,
    pub amount: String,
}

/// A `FundRaise` record of the API.
#[derive(Debug)]
pub struct FundRaise {
    pub rdate: String,
    pub ramount: String,
    pub rprice: String,
    pub batch: String,
    pub pdate: String,
}

/// A `ProfitForecast` record of the API.
#[derive(Debug)]
pub struct ProfitForecast {
    pub pdate: String,
    pub rdate: String,
    pub kind: String, // "type" in the API
    pub abs: String,
    pub prior: String, // "old" in the API
}

/// A `BusinessScope` record of the API.
#[derive(Debug)]
pub struct BusinessScope {
    pub keyword: String,
    pub content: String,
}

/// A `QuarterlyProfit` record of the API.
#[derive(Debug)]
pub struct QuarterlyProfit {
    pub date: String,
    pub income: String,
    pub expend: String,
    pub profit: String,
    pub totalp: String,
    pub reprofit: String,
    pub basege: String,
    pub ettege: String,
    pub totalcp: String,
}

/// A `QuarterlyCashflow` record of the API.
#[derive(Debug)]
pub struct QuarterlyCashflow {
    pub date: String,
    pub jyin: String,
    pub jyout: String,
    pub jyfinal: String,
    pub tzin: String,
    pub tzout: String,
    pub tzfinal: String,
    pub czin: String,
    pub czout: String,
    pub czfinal: String,
    pub cashinc: String,
    pub cashs: String,
    pub cashe: String,
}

/// A `Shareholder` record of the API.
#[derive(Debug)]
pub struct Shareholder {
    pub pm: String, // 排名
    pub gdmc: String, // 股东名称
    pub cgsl: String, // 持股数量
    pub cgbl: String, // 持股比例
    pub gbxz: String, // 股本性质
}

/// A `ShareholderReport` record of the API.
#[derive(Debug)]
pub struct ShareholderReport {
    pub jzrq: String,
    pub ggrq: String,
    pub sdgd: Vec<Shareholder>,
}

/// A `ShareholderChange` record of the API.
#[derive(Debug)]
pub struct ShareholderChange {
    pub jzrq: String,
    pub gdhs: String,
    pub bh: String,
}

/// A `FundHolding` record of the API.
#[derive(Debug)]
pub struct FundHolding {
    pub jzrq: String,
    pub jjmc: String,
    pub jjdm: String,
    pub ccsl: String,
    pub ltbl: String,
    pub cgsz: String,
    pub jzbl: String,
}

/// A `Subsidiary` record of the API.
#[derive(Debug)]
pub struct Subsidiary {
    pub mc: String,
    pub dm: String,
    pub ind: String,
    pub outd: String,
}

/// A `RealtimeQuote` record of the API.
#[derive(Debug)]
pub struct RealtimeQuote {
    pub fm: String, // 代码
    pub p: String, // 现价
    pub pc: String, // 昨收
    pub o: String, // 开盘
    pub h: String, // 最高
    pub l: String, // 最低
    pub v: String, // 成交量
    pub cje: String, // 成交额
    pub ud: String, // 涨跌额
    pub pe: String, // 市盈率
    pub zf: String, // 振幅
    pub sz: String, // 总市值
    pub hs: String, // 换手率
    pub lb: String, // 量比
    pub lt: String, // 流通市值
    pub yc: String, // 昨收(同pc)
    pub zs: String, // 涨速
    pub sjl: String, // 市净率
    pub zdf60: String, // 60日涨跌幅
    pub zdfnc: String, // 年初至今涨跌幅
    pub t: String, // 时间
}

/// A `TickData` record of the API.
#[derive(Debug)]
pub struct TickData {
    pub d: String, // 日期
    pub t: String, // 时间
    pub v: String, // 成交量
    pub p: String, // 价格
    pub ts: String, // 方向: 0=中性, 1=买入, 2=卖出
}

/// A `TimeShareData` record of the API.
#[derive(Debug)]
pub struct TimeShareData {
    pub p: String, // 现价
    pub o: String, // 开盘
    pub h: String, // 最高
    pub l: String, // 最低
    pub yc: String, // 昨收
    pub cje: String, // 成交额
    pub v: String, // 成交量
    pub pv: String, // 量价
    pub ud: String, // 涨跌额
    pub pc: String, // 涨跌幅
    pub zf: String, // 振幅
    pub pe: String, // 市盈率
    pub tr: String, // 换手率
    pub pb_ratio: String, // 市净率
    pub tv: String, // 时间
}

/// A `FiveLevelOrder` record of the API.
#[derive(Debug)]
pub struct FiveLevelOrder {
    pub ps: Vec<String>, // 委卖价 (5 prices)
    pub pb: Vec<String>, // 委买价 (5 prices)
    pub vs: Vec<String>, // 委卖量
    pub vb: Vec<String>, // 委买量
    pub t: String, // 时间
}

/// A `StopPrice` record of the API.
#[derive(Debug)]
pub struct StopPrice {
    pub t: String, // 日期
    pub h: String, // 涨停价
    pub l: String, // 跌停价
}

/// A `TechnicalIndicator` record of the API.
#[derive(Debug)]
pub struct TechnicalIndicator {
    pub time: String,
    pub lb: String,
    pub om: String,
    pub fm: String,
    pub ma3d: String,
    pub ma5d: String,
    pub ma10d: String,
    pub ma3t: String,
    pub ma5t: String,
    pub ma10t: String,
}

/// The query text of extra parameters: `&key=value` for each, in order.
pub open spec fn params_text(ps: Seq<(&str, &str)>) -> Seq<char>
    decreases ps.len(),
{
    if ps.len() == 0 {
        Seq::empty()
    } else {
        params_text(ps.drop_last()) + "&"@ + ps.last().0@ + "="@ + ps.last().1@
    }
}

/// The account of the extended ZhituAPI client: its address and token.
#[derive(Debug)]
pub struct ZhituClient {
    pub base_url: String,
    pub token: String,
}

impl ZhituClient {
    /// An account with `token` at the public API address.
    pub fn new(token: String) -> (r: ZhituClient)
        ensures
            r.base_url@ == "https://api.zhituapi.com"@,
            r.token == token,
    {
        ZhituClient { base_url: "https://api.zhituapi.com".to_owned(), token }
    }

    /// The same account at another address.
    pub fn with_base_url(self, url: String) -> (r: ZhituClient)
        ensures
            r.base_url == url,
            r.token == self.token,
    {
        ZhituClient { base_url: url, token: self.token }
    }

    /// The address of an endpoint: `{base}{path}?token={token}`.
    pub fn url(&self, path: &str) -> (r: String)
        ensures
            r@ == self.base_url@ + path@ + "?token="@ + self.token@,
    {
        let s = cat(self.base_url.as_str(), path);
        let s = cat(s.as_str(), "?token=");
        cat(s.as_str(), self.token.as_str())
    }

    /// The address of an endpoint with extra query parameters appended.
    pub fn url_with_params(&self, path: &str, params: &[(&str, &str)]) -> (r: String)
        ensures
            r@ == self.base_url@ + path@ + "?token="@ + self.token@ + params_text(params@),
    {
        let base = self.url(path);
        let mut v = to_chars(base.as_str());
        let mut i: usize = 0;
        proof {
            assert(params@.take(0) =~= Seq::<(&str, &str)>::empty());
            assert(v@ =~= base@ + params_text(params@.take(0)));
        }
        while i < params.len()
            invariant
                i <= params@.len(),
                v@ == base@ + params_text(params@.take(i as int)),
            decreases params@.len() - i,
        {
            let (k, val) = params[i];
            let ghost before = v@;
            append_chars(&mut v, &to_chars("&"));
            append_chars(&mut v, &to_chars(k));
            append_chars(&mut v, &to_chars("="));
            append_chars(&mut v, &to_chars(val));
            proof {
                assert(params@.take(i as int + 1).drop_last() =~= params@.take(i as int));
                assert(params@.take(i as int + 1).last() == params@[i as int]);
                assert(v@ =~= before + "&"@ + k@ + "="@ + val@);
            }
            i = i + 1;
        }
        proof {
            assert(params@.take(params@.len() as int) =~= params@);
        }
        from_chars(&v)
    }
}

} // verus!
