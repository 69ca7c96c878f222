//! Markets a symbol can belong to.

use vstd::prelude::*;
use crate::error::DataError;
use crate::text::{append_chars, ascii_lower, ascii_only, chars_eq, from_chars, lowercase_text, str_to_lowercase, to_chars};

verus! {

/// A market.
#[derive(Debug, Clone, Copy, PartialEq, Eq, Hash, Structural)]
pub enum Market {
    USStock,
    AShare,
    HKStock,
    Crypto,
    Forex,
}

/// The market that a lower-cased market name stands for.
pub open spec fn market_of_name(k: Seq<char>) -> Option<Market> {
    if k == seq!['u', 's'] || k == seq!['u', 's', '_', 's', 't', 'o', 'c', 'k']
        || k == seq!['n', 'a', 's', 'd', 'a', 'q'] || k == seq!['n', 'y', 's', 'e'] {
        Some(Market::USStock)
    } else if k == seq!['a', '_', 's', 'h', 'a', 'r', 'e'] || k == seq!['a', 's', 'h', 'a', 'r', 'e']
        || k == seq!['c', 'n'] || k == seq!['c', 'h', 'i', 'n', 'a'] {
        Some(Market::AShare)
    } else if k == seq!['h', 'k'] || k == seq!['h', 'k', '_', 's', 't', 'o', 'c', 'k']
        || k == seq!['h', 'k', 'e', 'x'] {
        Some(Market::HKStock)
    } else if k == seq!['c', 'r', 'y', 'p', 't', 'o'] || k == seq!['b', 't', 'c'] || k == seq![
        'e',
        't',
        'h',
    ] {
        Some(Market::Crypto)
    } else if k == seq!['f', 'o', 'r', 'e', 'x'] || k == seq!['f', 'x'] {
        Some(Market::Forex)
    } else {
        None
    }
}

/// The stable storage key of a market.
pub open spec fn market_key_spec(m: Market) -> Seq<char> {
    match m {
        Market::AShare => seq!['a', '_', 's', 'h', 'a', 'r', 'e'],
        Market::USStock => seq!['u', 's'],
        Market::HKStock => seq!['h', 'k'],
        Market::Crypto => seq!['c', 'r', 'y', 'p', 't', 'o'],
        Market::Forex => seq!['f', 'o', 'r', 'e', 'x'],
    }
}

/// The display name of a market.
pub open spec fn market_name_spec(m: Market) -> Seq<char> {
    match m {
        Market::USStock => seq!['U', 'S'],
        Market::AShare => seq!['A', '股'],
        Market::HKStock => seq!['H', 'K'],
        Market::Crypto => seq!['C', 'r', 'y', 'p', 't', 'o'],
        Market::Forex => seq!['F', 'o', 'r', 'e', 'x'],
    }
}

impl Market {
    /// The display name ("US", "A股", "HK", "Crypto", "Forex").
    pub fn display_name(&self) -> (r: String)
        ensures
            r@ == market_name_spec(*self),
    {
        let v: Vec<char> = match self {
            Market::USStock => vec!['U', 'S'],
            Market::AShare => vec!['A', '股'],
            Market::HKStock => vec!['H', 'K'],
            Market::Crypto => vec!['C', 'r', 'y', 'p', 't', 'o'],
            Market::Forex => vec!['F', 'o', 'r', 'e', 'x'],
        };
        from_chars(&v)
    }

    /// Parses a market name, case-insensitively.
    pub fn parse(s: &str) -> (r: Result<Market, DataError>)
        ensures
            ascii_only(s@) ==> market_of_name(lowercase_text(s@)) == market_of_name(
                s@.map_values(|c: char| ascii_lower(c)),
            ),
            match market_of_name(lowercase_text(s@)) {
                Some(m) => r == Ok::<Market, DataError>(m),
                None => r matches Err(DataError::Parse(msg)) && msg@ == seq![
                    'U',
                    'n',
                    'k',
                    'n',
                    'o',
                    'w',
                    'n',
                    ' ',
                    'm',
                    'a',
                    'r',
                    'k',
                    'e',
                    't',
                    ':',
                    ' ',
                ] + s@,
            },
    {
        let lower = str_to_lowercase(s);
        let k = to_chars(lower.as_str());
        if chars_eq(&k, &['u', 's']) || chars_eq(&k, &['u', 's', '_', 's', 't', 'o', 'c', 'k'])
            || chars_eq(&k, &['n', 'a', 's', 'd', 'a', 'q']) || chars_eq(&k, &['n', 'y', 's', 'e']) {
            Ok(Market::USStock)
        } else if chars_eq(&k, &['a', '_', 's', 'h', 'a', 'r', 'e']) || chars_eq(&k, &['a', 's', 'h', 'a', 'r', 'e'])
            || chars_eq(&k, &['c', 'n']) || chars_eq(&k, &['c', 'h', 'i', 'n', 'a']) {
            Ok(Market::AShare)
        } else if chars_eq(&k, &['h', 'k']) || chars_eq(&k, &['h', 'k', '_', 's', 't', 'o', 'c', 'k'])
            || chars_eq(&k, &['h', 'k', 'e', 'x']) {
            Ok(Market::HKStock)
        } else if chars_eq(&k, &['c', 'r', 'y', 'p', 't', 'o']) || chars_eq(&k, &['b', 't', 'c'])
            || chars_eq(&k, &['e', 't', 'h']) {
            Ok(Market::Crypto)
        } else if chars_eq(&k, &['f', 'o', 'r', 'e', 'x']) || chars_eq(&k, &['f', 'x']) {
            Ok(Market::Forex)
        } else {
            let mut msg: Vec<char> = vec!['U', 'n', 'k', 'n', 'o', 'w', 'n', ' ', 'm', 'a', 'r', 'k', 'e', 't', ':', ' '];
            append_chars(&mut msg, &to_chars(s));
            Err(DataError::Parse(from_chars(&msg)))
        }
    }
}

impl core::str::FromStr for Market {
    type Err = DataError;

    /// [`Market::parse`]: the market named by `s` (case-insensitively), or
    /// the parse error naming the text.
    fn from_str(s: &str) -> (r: Result<Market, DataError>)
        ensures
            match market_of_name(lowercase_text(s@)) {
                Some(m) => r == Ok::<Market, DataError>(m),
                None => r matches Err(DataError::Parse(msg)) && msg@ == seq![
                    'U', 'n', 'k', 'n', 'o', 'w', 'n', ' ', 'm', 'a', 'r', 'k', 'e', 't', ':', ' ',
                ] + s@,
            },
    {
        Market::parse(s)
    }
}

/// Every storage key is ASCII and names its own market, so
/// `Market::parse(market_key(m))` gives `m` back.
pub proof fn lemma_market_key_round_trip(m: Market)
    ensures
        ascii_only(market_key_spec(m)),
        market_of_name(market_key_spec(m).map_values(|c: char| ascii_lower(c))) == Some(m),
{
    let k = market_key_spec(m);
    assert(k.map_values(|c: char| ascii_lower(c)) =~= k);
}

/// The stable storage key of a market; it reads back through [`Market::parse`].
pub fn market_key(m: &Market) -> (r: &'static str)
    ensures
        r@ == market_key_spec(*m),
{
    proof {
        reveal_strlit("a_share");
        reveal_strlit("us");
        reveal_strlit("hk");
        reveal_strlit("crypto");
        reveal_strlit("forex");
    }
    match m {
        Market::AShare => "a_share",
        Market::USStock => "us",
        Market::HKStock => "hk",
        Market::Crypto => "crypto",
        Market::Forex => "forex",
    }
}

} // verus!
