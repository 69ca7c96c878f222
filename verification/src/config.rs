//! The configuration file: its settings, the watchlist and portfolio it
//! lists, and the rewriting of its `[data_source]` section.

use vstd::prelude::*;
use crate::decimal::{dec_parse, decimal_parse};
use crate::market::{Market, market_of_name};
use crate::portfolio::{Portfolio, Position};
use crate::symbol::Symbol;
use crate::text::{
    append_chars, chars_eq, from_chars, has_prefix, join, join_seq, lines, lines_seq, lowercase_text,
    to_chars, trim, trim_end, trim_end_seq, trim_seq, trim_start, trim_start_seq, views_of,
};

verus! {

/// General settings.
#[derive(Debug)]
pub struct GeneralConfig {
    /// Seconds between quote refreshes.
    pub refresh_interval: u64,
    pub default_currency: String,
}

impl Default for GeneralConfig {
    /// Refresh every 30 seconds, amounts in CNY.
    fn default() -> (r: GeneralConfig)
        ensures
            r.refresh_interval == 30,
            r.default_currency@ == "CNY"@,
    {
        GeneralConfig { refresh_interval: 30, default_currency: "CNY".to_owned() }
    }
}

/// A watchlist line of the configuration.
#[derive(Debug)]
pub struct WatchlistEntry {
    pub symbol: String,
    pub market: String,
}

/// A portfolio line of the configuration; the numbers are decimal text.
#[derive(Debug)]
pub struct PortfolioEntry {
    pub symbol: String,
    pub market: String,
    pub quantity: String,
    pub cost_basis: String,
}

/// API keys of optional providers.
#[derive(Debug)]
pub struct ApiKeys {
    pub alpha_vantage: Option<String>,
}

impl Default for ApiKeys {
    /// No keys.
    fn default() -> (r: ApiKeys)
        ensures
            r.alpha_vantage is None,
    {
        ApiKeys { alpha_vantage: None }
    }
}

/// The `[data_source]` section: the price-history provider and the AKTools URL.
#[derive(Debug)]
pub struct DataSourceConfig {
    pub provider: Option<String>,
    pub akshare_url: Option<String>,
}

impl Default for DataSourceConfig {
    /// Nothing set.
    fn default() -> (r: DataSourceConfig)
        ensures
            r.provider is None,
            r.akshare_url is None,
    {
        DataSourceConfig { provider: None, akshare_url: None }
    }
}

/// The whole configuration file.
#[derive(Debug)]
pub struct Config {
    pub general: GeneralConfig,
    pub api_keys: ApiKeys,
    pub data_source: DataSourceConfig,
    pub watchlist: Vec<WatchlistEntry>,
    pub portfolio: Vec<PortfolioEntry>,
}

impl Default for Config {
    /// Default general settings and nothing else.
    fn default() -> (r: Config)
        ensures
            r.general.refresh_interval == 30,
            r.general.default_currency@ == "CNY"@,
            r.api_keys.alpha_vantage is None,
            r.data_source.provider is None,
            r.data_source.akshare_url is None,
            r.watchlist@.len() == 0,
            r.portfolio@.len() == 0,
    {
        Config {
            general: GeneralConfig::default(),
            api_keys: ApiKeys::default(),
            data_source: DataSourceConfig::default(),
            watchlist: Vec::new(),
            portfolio: Vec::new(),
        }
    }
}

/// The code and market of each watchlist entry whose market name parses
/// (case-insensitively), in order.
pub open spec fn watchlist_symbols_spec(es: Seq<WatchlistEntry>) -> Seq<(Seq<char>, Market)>
    decreases es.len(),
{
    if es.len() == 0 {
        Seq::empty()
    } else {
        let rest = watchlist_symbols_spec(es.drop_last());
        match market_of_name(lowercase_text(es.last().market@)) {
            Some(m) => rest.push((es.last().symbol@, m)),
            None => rest,
        }
    }
}

/// Code and market of each symbol.
pub open spec fn symbol_keys(s: Seq<Symbol>) -> Seq<(Seq<char>, Market)> {
    s.map_values(|x: Symbol| (x.code@, x.market))
}

/// Code, market, quantity and cost of each portfolio entry whose market
/// name and both numbers parse, in order; the others are skipped.
pub open spec fn portfolio_rows_spec(es: Seq<PortfolioEntry>) -> Seq<(Seq<char>, Market, (int, int), (int, int))>
    decreases es.len(),
{
    if es.len() == 0 {
        Seq::empty()
    } else {
        let rest = portfolio_rows_spec(es.drop_last());
        let e = es.last();
        match (market_of_name(lowercase_text(e.market@)), decimal_parse(e.quantity@), decimal_parse(e.cost_basis@)) {
            (Some(m), Some(q), Some(c)) => rest.push((e.symbol@, m, q, c)),
            _ => rest,
        }
    }
}

/// Code, market, quantity and cost of each position.
pub open spec fn position_rows(s: Seq<Position>) -> Seq<(Seq<char>, Market, (int, int), (int, int))> {
    s.map_values(|p: Position| (p.symbol.code@, p.symbol.market, p.quantity@, p.cost_basis@))
}

impl Config {
    /// The watchlist as symbols; entries with an unknown market are
    /// skipped.
    pub fn to_watchlist_symbols(&self) -> (r: Vec<Symbol>)
        ensures
            symbol_keys(r@) == watchlist_symbols_spec(self.watchlist@),
            forall|i: int| 0 <= i < r@.len() ==> (#[trigger] r@[i]).name is None,
    {
        let mut out: Vec<Symbol> = Vec::new();
        let mut i: usize = 0;
        proof {
            assert(self.watchlist@.take(0) =~= Seq::<WatchlistEntry>::empty());
            assert(symbol_keys(out@) =~= Seq::<(Seq<char>, Market)>::empty());
        }
        while i < self.watchlist.len()
            invariant
                i <= self.watchlist@.len(),
                symbol_keys(out@) == watchlist_symbols_spec(self.watchlist@.take(i as int)),
                forall|k: int| 0 <= k < out@.len() ==> (#[trigger] out@[k]).name is None,
            decreases self.watchlist@.len() - i,
        {
            let e = &self.watchlist[i];
            proof {
                assert(self.watchlist@.take(i as int + 1).drop_last() =~= self.watchlist@.take(i as int));
                assert(self.watchlist@.take(i as int + 1).last() == self.watchlist@[i as int]);
            }
            match Market::parse(e.market.as_str()) {
                Ok(m) => {
                    let ghost before = out@;
                    out.push(Symbol::new(e.symbol.as_str(), m));
                    proof {
                        assert(symbol_keys(out@) =~= symbol_keys(before).push((e.symbol@, m)));
                    }
                },
                Err(_) => {},
            }
            i = i + 1;
        }
        proof {
            assert(self.watchlist@.take(self.watchlist@.len() as int) =~= self.watchlist@);
        }
        out
    }

    /// The portfolio as positions; entries with an unknown market or a
    /// quantity or cost that does not parse as a decimal are skipped.
    pub fn to_portfolio(&self) -> (r: Portfolio)
        ensures
            position_rows(r.positions@) == portfolio_rows_spec(self.portfolio@),
            forall|i: int| 0 <= i < r.positions@.len() ==> (#[trigger] r.positions@[i]).symbol.name is None,
    {
        let mut positions: Vec<Position> = Vec::new();
        let mut i: usize = 0;
        proof {
            assert(self.portfolio@.take(0) =~= Seq::<PortfolioEntry>::empty());
            assert(position_rows(positions@) =~= Seq::<(Seq<char>, Market, (int, int), (int, int))>::empty());
        }
        while i < self.portfolio.len()
            invariant
                i <= self.portfolio@.len(),
                position_rows(positions@) == portfolio_rows_spec(self.portfolio@.take(i as int)),
                forall|k: int| 0 <= k < positions@.len() ==> (#[trigger] positions@[k]).symbol.name is None,
            decreases self.portfolio@.len() - i,
        {
            let e = &self.portfolio[i];
            proof {
                assert(self.portfolio@.take(i as int + 1).drop_last() =~= self.portfolio@.take(i as int));
                assert(self.portfolio@.take(i as int + 1).last() == self.portfolio@[i as int]);
            }
            let market = Market::parse(e.market.as_str());
            let qty = dec_parse(e.quantity.as_str());
            let cost = dec_parse(e.cost_basis.as_str());
            match (market, qty, cost) {
                (Ok(m), Some(q), Some(c)) => {
                    let ghost before = positions@;
                    positions.push(Position { symbol: Symbol::new(e.symbol.as_str(), m), quantity: q, cost_basis: c });
                    proof {
                        assert(position_rows(positions@) =~= position_rows(before).push((e.symbol@, m, q@, c@)));
                    }
                },
                _ => {},
            }
            i = i + 1;
        }
        proof {
            assert(self.portfolio@.take(self.portfolio@.len() as int) =~= self.portfolio@);
        }
        Portfolio { positions }
    }
}

/// A line opens a section when, after leading white space, it starts with
/// `[`.
pub open spec fn opens_section(l: Seq<char>) -> bool {
    has_prefix(trim_start_seq(l), seq!['['])
}

/// The lines kept when dropping the section whose header is `header`:
/// every line from that header up to the next section header is dropped.
/// `in_section` says whether the lines before were inside it.
pub open spec fn section_filter(ls: Seq<Seq<char>>, header: Seq<char>, in_section: bool) -> Seq<Seq<char>>
    decreases ls.len(),
{
    if ls.len() == 0 {
        Seq::empty()
    } else {
        let l = ls[0];
        let now = if opens_section(l) {
            trim_seq(l) == header
        } else {
            in_section
        };
        let rest = section_filter(ls.drop_first(), header, now);
        if now {
            rest
        } else {
            seq![l] + rest
        }
    }
}

/// The text without the section `[section]`: its header line and every
/// line up to the next section header are dropped, and the other lines are
/// joined with `\n`.
pub open spec fn remove_section_spec(content: Seq<char>, section: Seq<char>) -> Seq<char> {
    join_seq(section_filter(lines_seq(content), seq!['['] + section + seq![']'], false), seq!['\n'])
}

/// Removes the section `[section]` from TOML text: its header line and
/// every line up to the next section header (`[...]` or `[[...]]`).
pub fn remove_toml_section(content: &str, section: &str) -> (r: String)
    ensures
        r@ == remove_section_spec(content@, section@),
{
    let mut header: Vec<char> = vec!['['];
    append_chars(&mut header, &to_chars(section));
    header.push(']');
    let ghost h = seq!['['] + section@ + seq![']'];
    proof {
        assert(header@ =~= h);
    }
    let all = lines(&to_chars(content));
    let ghost ls = views_of(all@);
    let mut kept: Vec<Vec<char>> = Vec::new();
    let mut in_section = false;
    let mut i: usize = 0;
    proof {
        assert(ls.skip(0) =~= ls);
        assert(views_of(kept@) + section_filter(ls.skip(0), h, false) =~= section_filter(ls, h, false));
    }
    while i < all.len()
        invariant
            i <= all@.len(),
            ls == views_of(all@),
            header@ == h,
            views_of(kept@) + section_filter(ls.skip(i as int), h, in_section) == section_filter(ls, h, false),
        decreases all@.len() - i,
    {
        let line = &all[i];
        let ghost tail = ls.skip(i as int);
        proof {
            assert(tail[0] == line@);
            assert(tail.drop_first() =~= ls.skip(i as int + 1));
        }
        let start = trim_start(line.as_slice());
        if start.len() > 0 && start[0] == '[' {
            let t = trim(line.as_slice());
            in_section = chars_eq(&t, &header);
        }
        proof {
            assert(opens_section(line@) == (start@.len() > 0 && start@[0] == '[')) by {
                assert(seq!['['].len() == 1);
                if start@.len() > 0 && start@[0] == '[' {
                    assert(start@.take(1) =~= seq!['[']);
                }
                if has_prefix(start@, seq!['[']) {
                    assert(start@.take(1)[0] == start@[0]);
                }
            }
        }
        if !in_section {
            let ghost before = kept@;
            kept.push(line.clone());
            proof {
                assert(kept@.last()@ == line@);
                assert(views_of(kept@) =~= views_of(before).push(line@));
                assert(views_of(before).push(line@) + section_filter(ls.skip(i as int + 1), h, in_section)
                    =~= views_of(before) + (seq![line@] + section_filter(ls.skip(i as int + 1), h, in_section)));
            }
        }
        i = i + 1;
    }
    let sep: [char; 1] = ['\n'];
    let joined = join(&kept, &sep);
    proof {
        assert(sep@ =~= seq!['\n']);
        assert(ls.skip(all@.len() as int) =~= Seq::<Seq<char>>::empty());
        assert(section_filter(Seq::<Seq<char>>::empty(), h, in_section) =~= Seq::<Seq<char>>::empty());
        assert(views_of(kept@) =~= views_of(kept@) + Seq::<Seq<char>>::empty());
        assert(views_of(kept@) == section_filter(lines_seq(content@), h, false));
    }
    from_chars(&joined)
}

/// The configuration text with its `[data_source]` section replaced by
/// `section_body` (the serialised section): the old section is removed,
/// trailing white space trimmed, and the new section appended after a
/// blank line (or alone when nothing else is left).
pub open spec fn data_source_text_spec(existing: Seq<char>, section_body: Seq<char>) -> Seq<char> {
    let prefix = trim_end_seq(remove_section_spec(existing, "data_source"@));
    if prefix.len() == 0 {
        "[data_source]\n"@ + section_body
    } else {
        prefix + "\n\n[data_source]\n"@ + section_body
    }
}

/// Builds the configuration text that saving the data source writes:
/// `existing` without its `[data_source]` section, then the new section.
pub fn data_source_config_text(existing: &str, section_body: &str) -> (r: String)
    ensures
        r@ == data_source_text_spec(existing@, section_body@),
{
    let without = remove_toml_section(existing, "data_source");
    let prefix = trim_end(&to_chars(without.as_str()));
    let mut out: Vec<char> = Vec::new();
    if prefix.len() == 0 {
        append_chars(&mut out, &to_chars("[data_source]\n"));
    } else {
        append_chars(&mut out, &prefix);
        append_chars(&mut out, &to_chars("\n\n[data_source]\n"));
    }
    append_chars(&mut out, &to_chars(section_body));
    proof {
        if prefix@.len() == 0 {
            assert(out@ =~= "[data_source]\n"@ + section_body@);
        } else {
            assert(out@ =~= prefix@ + "\n\n[data_source]\n"@ + section_body@);
        }
    }
    from_chars(&out)
}

/// `trim_end_seq(s)` is a prefix of `s`.
proof fn lemma_trim_end_prefix(s: Seq<char>)
    ensures
        trim_end_seq(s).len() <= s.len(),
        s.take(trim_end_seq(s).len() as int) == trim_end_seq(s),
    decreases s.len(),
{
    if s.len() > 0 && crate::text::white_space(s.last()) {
        lemma_trim_end_prefix(s.drop_last());
        let k = trim_end_seq(s.drop_last()).len() as int;
        assert(s.drop_last().take(k) =~= s.take(k));
    } else {
        assert(s.take(s.len() as int) =~= s);
    }
}

/// No kept line trims to the header of the dropped section.
proof fn lemma_filter_drops_header(ls: Seq<Seq<char>>, h: Seq<char>, in_section: bool)
    requires
        h.len() > 0,
        h[0] == '[',
    ensures
        forall|i: int|
            0 <= i < section_filter(ls, h, in_section).len() ==> trim_seq(
                #[trigger] section_filter(ls, h, in_section)[i],
            ) != h,
    decreases ls.len(),
{
    if ls.len() > 0 {
        let l = ls[0];
        let now = if opens_section(l) {
            trim_seq(l) == h
        } else {
            in_section
        };
        lemma_filter_drops_header(ls.drop_first(), h, now);
        if !now && !opens_section(l) {
            let t = trim_start_seq(l);
            lemma_trim_end_prefix(t);
            if trim_seq(l) == h {
                assert(t[0] == h[0]) by {
                    assert(t.take(h.len() as int)[0] == t[0]);
                }
                assert(t.take(1) =~= seq!['[']);
                assert(opens_section(l));
            }
        }
        let r = section_filter(ls, h, in_section);
        let rest = section_filter(ls.drop_first(), h, now);
        if !now {
            assert forall|i: int| 0 <= i < r.len() implies trim_seq(#[trigger] r[i]) != h by {
                if i > 0 {
                    assert(r[i] == rest[i - 1]);
                }
            }
        }
    }
}

/// Law: after removing the section `[section]`, no remaining line is its
/// header (white space around the line aside).
pub proof fn lemma_removed_section_header_gone(content: Seq<char>, section: Seq<char>)
    ensures
        forall|i: int|
            0 <= i < section_filter(lines_seq(content), seq!['['] + section + seq![']'], false).len()
                ==> trim_seq(#[trigger] section_filter(lines_seq(content), seq!['['] + section + seq![']'], false)[i])
                != seq!['['] + section + seq![']'],
{
    let h = seq!['['] + section + seq![']'];
    assert(h[0] == '[');
    lemma_filter_drops_header(lines_seq(content), h, false);
}

} // verus!
