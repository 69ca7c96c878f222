//! The portfolio CSV format: a header line, then `code,market,quantity,cost`
//! per holding.

use vstd::prelude::*;
use crate::config::position_rows;
use crate::decimal::{dec_parse, decimal_parse};
use crate::error::{DataError, digits, u64_digits};
use crate::market::{Market, market_of_name};
use crate::portfolio::{Portfolio, Position};
use crate::symbol::Symbol;
use crate::text::{
    append_chars, from_chars, lines, lines_seq, lowercase_text, split_char, split_seq, to_chars, trim,
    trim_seq, views_of,
};

verus! {

/// What one line after the header stands for.
pub enum CsvLine {
    /// A blank line, skipped.
    Blank,
    /// A holding: code, market, quantity and cost.
    Row(Seq<char>, Market, (int, int), (int, int)),
    /// A malformed line, with the message of the parse error.
    Bad(Seq<char>),
}

/// The meaning of the line numbered `number` (counting from 1): blank when
/// only white space; an error when it has fewer than four comma-separated
/// fields, an unknown market, or a quantity or cost that is not a decimal;
/// else the holding, each field trimmed.
pub open spec fn csv_line_spec(line: Seq<char>, number: nat) -> CsvLine {
    if trim_seq(line).len() == 0 {
        CsvLine::Blank
    } else {
        let f = split_seq(line, ',');
        if f.len() < 4 {
            CsvLine::Bad("line "@ + digits(number) + ": expected 4 fields, got "@ + digits(f.len()))
        } else {
            let market = trim_seq(f[1]);
            match market_of_name(lowercase_text(market)) {
                None => CsvLine::Bad("Unknown market: "@ + market),
                Some(m) => match decimal_parse(trim_seq(f[2])) {
                    None => CsvLine::Bad("invalid quantity: "@ + f[2]),
                    Some(q) => match decimal_parse(trim_seq(f[3])) {
                        None => CsvLine::Bad("invalid cost_basis: "@ + f[3]),
                        Some(c) => CsvLine::Row(trim_seq(f[0]), m, q, c),
                    },
                },
            }
        }
    }
}

/// The holdings of the lines `ls` (the first is the header), or the message
/// of the first malformed line.
pub open spec fn csv_spec(ls: Seq<Seq<char>>) -> Result<Seq<(Seq<char>, Market, (int, int), (int, int))>, Seq<char>>
    decreases ls.len(),
{
    if ls.len() == 0 {
        Ok(Seq::empty())
    } else {
        match csv_spec(ls.drop_last()) {
            Err(m) => Err(m),
            Ok(rows) => if ls.len() == 1 {
                Ok(rows)
            } else {
                match csv_line_spec(ls.last(), ls.len()) {
                    CsvLine::Blank => Ok(rows),
                    CsvLine::Row(c, m, q, k) => Ok(rows.push((c, m, q, k))),
                    CsvLine::Bad(msg) => Err(msg),
                }
            },
        }
    }
}

/// Reads a portfolio from CSV text: the first line is a header; blank lines
/// are skipped; each other line gives a holding. The first malformed line
/// fails the whole read with a parse error naming it.
pub fn load_portfolio_from_csv(content: &str) -> (r: Result<Portfolio, DataError>)
    ensures
        match csv_spec(lines_seq(content@)) {
            Ok(rows) => r matches Ok(p) && position_rows(p.positions@) == rows && forall|i: int|
                0 <= i < p.positions@.len() ==> (#[trigger] p.positions@[i]).symbol.name is None,
            Err(msg) => r matches Err(DataError::Parse(m)) && m@ == msg,
        },
{
    let ls = lines(&to_chars(content));
    let ghost lv = views_of(ls@);
    let mut positions: Vec<Position> = Vec::new();
    let mut i: usize = 0;
    proof {
        assert(lv.take(0) =~= Seq::<Seq<char>>::empty());
        assert(position_rows(positions@) =~= Seq::<(Seq<char>, Market, (int, int), (int, int))>::empty());
    }
    while i < ls.len()
        invariant
            i <= ls@.len(),
            lv == views_of(ls@),
            lv == lines_seq(content@),
            csv_spec(lv.take(i as int)) == Ok::<Seq<(Seq<char>, Market, (int, int), (int, int))>, Seq<char>>(
                position_rows(positions@),
            ),
            forall|k: int| 0 <= k < positions@.len() ==> (#[trigger] positions@[k]).symbol.name is None,
        decreases ls@.len() - i,
    {
        let line = &ls[i];
        proof {
            assert(lv.take(i as int + 1).drop_last() =~= lv.take(i as int));
            assert(lv.take(i as int + 1).last() == line@);
            assert(lv.take(i as int + 1).len() == i + 1);
        }
        let trimmed = trim(line.as_slice());
        if i == 0 || trimmed.len() == 0 {
            i = i + 1;
            continue;
        }
        let fields = split_char(line.as_slice(), ',');
        proof {
            assert(views_of(fields@).len() == fields@.len());
        }
        if fields.len() < 4 {
            let mut msg: Vec<char> = to_chars("line ");
            append_chars(&mut msg, &u64_digits((i + 1) as u64));
            append_chars(&mut msg, &to_chars(": expected 4 fields, got "));
            append_chars(&mut msg, &u64_digits(fields.len() as u64));
            proof {
                lemma_csv_fails(lv, i as int + 1);
            }
            return Err(DataError::Parse(from_chars(&msg)));
        }
        proof {
            assert(fields@[0]@ == views_of(fields@)[0]);
            assert(fields@[1]@ == views_of(fields@)[1]);
            assert(fields@[2]@ == views_of(fields@)[2]);
            assert(fields@[3]@ == views_of(fields@)[3]);
        }
        let code = from_chars(&trim(fields[0].as_slice()));
        let market_text = from_chars(&trim(fields[1].as_slice()));
        let market = match Market::parse(market_text.as_str()) {
            Ok(m) => m,
            Err(e) => {
                proof {
                    reveal_strlit("Unknown market: ");
                    assert("Unknown market: "@ =~= seq![
                        'U', 'n', 'k', 'n', 'o', 'w', 'n', ' ', 'm', 'a', 'r', 'k', 'e', 't', ':', ' ',
                    ]);
                    lemma_csv_fails(lv, i as int + 1);
                }
                return Err(e);
            },
        };
        let qty = match dec_parse(from_chars(&trim(fields[2].as_slice())).as_str()) {
            Some(q) => q,
            None => {
                let mut msg: Vec<char> = to_chars("invalid quantity: ");
                append_chars(&mut msg, fields[2].as_slice());
                proof {
                    lemma_csv_fails(lv, i as int + 1);
                }
                return Err(DataError::Parse(from_chars(&msg)));
            },
        };
        let cost = match dec_parse(from_chars(&trim(fields[3].as_slice())).as_str()) {
            Some(c) => c,
            None => {
                let mut msg: Vec<char> = to_chars("invalid cost_basis: ");
                append_chars(&mut msg, fields[3].as_slice());
                proof {
                    lemma_csv_fails(lv, i as int + 1);
                }
                return Err(DataError::Parse(from_chars(&msg)));
            },
        };
        let ghost before = positions@;
        positions.push(Position { symbol: Symbol::new(code.as_str(), market), quantity: qty, cost_basis: cost });
        proof {
            assert(position_rows(positions@) =~= position_rows(before).push((code@, market, qty@, cost@)));
        }
        i = i + 1;
    }
    proof {
        assert(lv.take(ls@.len() as int) =~= lv);
    }
    Ok(Portfolio { positions })
}

/// A failure at line `k` is the failure of the whole read.
proof fn lemma_csv_fails(ls: Seq<Seq<char>>, k: int)
    requires
        1 <= k <= ls.len(),
        csv_spec(ls.take(k)) is Err,
    ensures
        csv_spec(ls) == csv_spec(ls.take(k)),
    decreases ls.len() - k,
{
    if k < ls.len() {
        assert(ls.take(k + 1).drop_last() =~= ls.take(k));
        lemma_csv_fails(ls, k + 1);
    } else {
        assert(ls.take(k) =~= ls);
    }
}

} // verus!
