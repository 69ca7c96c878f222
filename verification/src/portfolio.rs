//! Holdings and their profit and loss.

use vstd::prelude::*;
use crate::decimal::{
    Dec, abs, dec_checked_add, dec_checked_div, dec_checked_mul, dec_checked_sub, decimal_checked_difference,
    decimal_checked_product, decimal_checked_quotient, decimal_checked_sum, dec_add, dec_div, dec_mul, dec_sub, decimal_difference, decimal_product,
    decimal_quotient, decimal_sum, int_model, lemma_mag_int, lemma_quotient_bound_le, mag,
    max_mantissa, pow10, quotient_bound, zero_model, at28, difference_exact,
};
use crate::keyed::KeyedMap;
use crate::symbol::Symbol;

verus! {

broadcast use crate::decimal::lemma_dec_scale;

/// A holding: a quantity of a symbol and its total cost.
#[derive(Debug)]
pub struct Position {
    pub symbol: Symbol,
    pub quantity: Dec,
    /// Total cost (quantity times average price).
    pub cost_basis: Dec,
}

impl Clone for Position {
    fn clone(&self) -> (r: Self)
        ensures
            r == *self,
    {
        Position { symbol: self.symbol.clone(), quantity: self.quantity, cost_basis: self.cost_basis }
    }
}

/// Integer-part bound of `a * b`.
pub open spec fn product_bound(a: (int, int), b: (int, int)) -> int {
    (mag(a) + 1) * (mag(b) + 1)
}

/// `a * b` stays within the 96-bit range.
pub open spec fn product_fits(a: (int, int), b: (int, int)) -> bool {
    product_bound(a, b) < max_mantissa()
}

/// Integer-part bound of a percentage `x / d * 100` when `mag(x) <= bound`.
pub open spec fn percent_bound(bound: int, d: (int, int)) -> int {
    ((bound + 1) * pow10(d.1 as nat)) / abs(d.0) + 2
}

/// `x / d * 100` stays within range when `mag(x) <= bound` and `d != 0`.
pub open spec fn percent_fits(bound: int, d: (int, int)) -> bool {
    percent_bound(bound, d) * 101 < max_mantissa()
}

/// Market value of a position at a price.
pub open spec fn market_value_spec(p: Position, price: (int, int)) -> (int, int) {
    decimal_product(p.quantity@, price)
}

/// Profit or loss of a position at a price.
pub open spec fn pnl_spec(p: Position, price: (int, int)) -> (int, int) {
    decimal_difference(market_value_spec(p, price), p.cost_basis@)
}

/// Integer-part bound of the profit or loss.
pub open spec fn pnl_bound(p: Position, price: (int, int)) -> int {
    product_bound(p.quantity@, price) + mag(p.cost_basis@) + 2
}

/// Profit or loss as a percentage of cost; zero when the cost is zero.
pub open spec fn pnl_pct_spec(p: Position, price: (int, int)) -> (int, int) {
    if p.cost_basis@.0 == 0 {
        zero_model()
    } else {
        decimal_product(decimal_quotient(pnl_spec(p, price), p.cost_basis@), int_model(100))
    }
}

/// Cost per share; zero when the quantity is zero.
pub open spec fn cost_per_share_spec(p: Position) -> (int, int) {
    if p.quantity@.0 == 0 {
        zero_model()
    } else {
        decimal_quotient(p.cost_basis@, p.quantity@)
    }
}

/// `(x / d) * 100` for a divisor and a dividend whose integer part is at most
/// `bound`.
fn percent_of(x: Dec, d: Dec, Ghost(bound): Ghost<int>) -> (r: Dec)
    requires
        d@.0 != 0,
        mag(x@) <= bound,
        percent_fits(bound, d@),
    ensures
        r@ == decimal_product(decimal_quotient(x@, d@), int_model(100)),
{
    x.limits();
    d.limits();
    proof {
        lemma_quotient_bound_le(x@, d@, bound);
        lemma_mag_int(100);
    }
    let q = dec_div(x, d);
    let h = Dec::from_i64(100);
    proof {
        let qq = ((bound + 1) * pow10(d@.1 as nat)) / abs(d@.0);
        assert(mag(q@) <= qq + 1);
        assert(mag(h@) == 100);
        assert((mag(q@) + 1) * (mag(h@) + 1) == (mag(q@) + 1) * 101);
        assert((mag(q@) + 1) * 101 <= (qq + 2) * 101);
    }
    dec_mul(q, h)
}

impl Position {
    /// `quantity * price`.
    pub fn market_value(&self, current_price: Dec) -> (r: Dec)
        requires
            product_fits(self.quantity@, current_price@),
        ensures
            r@ == market_value_spec(*self, current_price@),
            mag(r@) <= product_bound(self.quantity@, current_price@),
    {
        dec_mul(self.quantity, current_price)
    }

    /// Market value minus cost.
    pub fn pnl(&self, current_price: Dec) -> (r: Dec)
        requires
            product_fits(self.quantity@, current_price@),
            pnl_bound(*self, current_price@) < max_mantissa(),
        ensures
            r@ == pnl_spec(*self, current_price@),
            mag(r@) <= pnl_bound(*self, current_price@),
    {
        let mv = self.market_value(current_price);
        dec_sub(mv, self.cost_basis)
    }

    /// Profit or loss in percent of cost; zero when the cost is zero.
    pub fn pnl_pct(&self, current_price: Dec) -> (r: Dec)
        requires
            product_fits(self.quantity@, current_price@),
            pnl_bound(*self, current_price@) < max_mantissa(),
            self.cost_basis@.0 != 0 ==> percent_fits(pnl_bound(*self, current_price@), self.cost_basis@),
        ensures
            r@ == pnl_pct_spec(*self, current_price@),
    {
        if self.cost_basis.is_zero() {
            Dec::zero()
        } else {
            let p = self.pnl(current_price);
            percent_of(p, self.cost_basis, Ghost(pnl_bound(*self, current_price@)))
        }
    }

    /// Cost divided by quantity; zero when the quantity is zero.
    pub fn cost_per_share(&self) -> (r: Dec)
        requires
            self.quantity@.0 != 0 ==> quotient_bound(self.cost_basis@, self.quantity@) + 2 < max_mantissa(),
        ensures
            r@ == cost_per_share_spec(*self),
    {
        if self.quantity.is_zero() {
            Dec::zero()
        } else {
            dec_div(self.cost_basis, self.quantity)
        }
    }
}

/// A set of holdings.
#[derive(Debug)]
pub struct Portfolio {
    pub positions: Vec<Position>,
}

impl Clone for Portfolio {
    fn clone(&self) -> (r: Self)
        ensures
            r.positions@ == self.positions@,
    {
        let mut v: Vec<Position> = Vec::new();
        let mut i: usize = 0;
        while i < self.positions.len()
            invariant
                i <= self.positions@.len(),
                v@ == self.positions@.take(i as int),
            decreases self.positions@.len() - i,
        {
            v.push(self.positions[i].clone());
            proof {
                assert(self.positions@.take(i as int + 1) == self.positions@.take(i as int).push(self.positions@[i as int]));
            }
            i = i + 1;
        }
        proof {
            assert(self.positions@.take(self.positions@.len() as int) == self.positions@);
        }
        Portfolio { positions: v }
    }
}

impl Default for Portfolio {
    fn default() -> (r: Self)
        ensures
            r.positions@.len() == 0,
    {
        Portfolio { positions: Vec::new() }
    }
}

/// Sum of the costs, added left to right from zero.
pub open spec fn cost_sum(s: Seq<Position>) -> (int, int)
    decreases s.len(),
{
    if s.len() == 0 {
        zero_model()
    } else {
        decimal_sum(cost_sum(s.drop_last()), s.last().cost_basis@)
    }
}

/// Bound on the integer parts met while summing the costs.
pub open spec fn cost_total_bound(s: Seq<Position>) -> int
    decreases s.len(),
{
    if s.len() == 0 {
        0
    } else {
        cost_total_bound(s.drop_last()) + mag(s.last().cost_basis@) + 2
    }
}

/// What a position counts for at the given prices: its market value when a
/// price is known for its code, else its cost.
pub open spec fn position_value(p: Position, prices: Map<Seq<char>, Dec>) -> (int, int) {
    if prices.contains_key(p.symbol.code@) {
        market_value_spec(p, prices[p.symbol.code@]@)
    } else {
        p.cost_basis@
    }
}

/// Integer-part bound of `position_value`.
pub open spec fn position_value_bound(p: Position, prices: Map<Seq<char>, Dec>) -> int {
    if prices.contains_key(p.symbol.code@) {
        product_bound(p.quantity@, prices[p.symbol.code@]@)
    } else {
        mag(p.cost_basis@)
    }
}

/// Sum of the position values, added left to right from zero.
pub open spec fn value_sum(s: Seq<Position>, prices: Map<Seq<char>, Dec>) -> (int, int)
    decreases s.len(),
{
    if s.len() == 0 {
        zero_model()
    } else {
        decimal_sum(value_sum(s.drop_last(), prices), position_value(s.last(), prices))
    }
}

/// Bound on the integer parts met while summing the values.
pub open spec fn value_total_bound(s: Seq<Position>, prices: Map<Seq<char>, Dec>) -> int
    decreases s.len(),
{
    if s.len() == 0 {
        0
    } else {
        value_total_bound(s.drop_last(), prices) + position_value_bound(s.last(), prices) + 2
    }
}

/// The summations stay in range: every product fits and the totals do.
pub open spec fn valuation_fits(s: Seq<Position>, prices: Map<Seq<char>, Dec>) -> bool {
    &&& forall|i: int| 0 <= i < s.len() && prices.contains_key(#[trigger] s[i].symbol.code@)
        ==> product_fits(s[i].quantity@, prices[s[i].symbol.code@]@)
    &&& value_total_bound(s, prices) + cost_total_bound(s) + 2 < max_mantissa()
}

/// A position's value bound is not negative.
proof fn lemma_value_bound_nonneg(p: Position, prices: Map<Seq<char>, Dec>)
    ensures
        position_value_bound(p, prices) >= 0,
        mag(p.cost_basis@) >= 0,
{
    crate::decimal::lemma_mag_bounds(p.quantity@);
    crate::decimal::lemma_mag_bounds(p.cost_basis@);
    if prices.contains_key(p.symbol.code@) {
        crate::decimal::lemma_mag_bounds(prices[p.symbol.code@]@);
        let a = mag(p.quantity@);
        let b = mag(prices[p.symbol.code@]@);
        assert((a + 1) * (b + 1) >= 0) by (nonlinear_arith)
            requires
                a >= 0,
                b >= 0,
        ;
    }
}

/// Bounds are not negative and grow along the list.
proof fn lemma_bounds_grow(s: Seq<Position>, prices: Map<Seq<char>, Dec>, i: int)
    requires
        0 <= i <= s.len(),
    ensures
        0 <= cost_total_bound(s.take(i)) <= cost_total_bound(s),
        0 <= value_total_bound(s.take(i), prices) <= value_total_bound(s, prices),
    decreases s.len(),
{
    if s.len() == 0 {
        assert(s.take(i) =~= s);
    } else {
        lemma_value_bound_nonneg(s.last(), prices);
        if i == s.len() {
            assert(s.take(i) =~= s);
            lemma_bounds_grow(s.drop_last(), prices, i - 1);
        } else {
            lemma_bounds_grow(s.drop_last(), prices, i);
            assert(s.drop_last().take(i) =~= s.take(i));
        }
    }
}

impl Portfolio {
    /// Sum of the cost bases.
    pub fn total_cost(&self) -> (r: Dec)
        requires
            cost_total_bound(self.positions@) < max_mantissa(),
        ensures
            r@ == cost_sum(self.positions@),
            mag(r@) <= cost_total_bound(self.positions@),
    {
        let n = self.positions.len();
        let mut acc = Dec::zero();
        let mut i: usize = 0;
        proof {
            assert(self.positions@.take(0) =~= Seq::<Position>::empty());
            lemma_mag_int(0);
        }
        while i < n
            invariant
                n == self.positions@.len(),
                i <= n,
                cost_total_bound(self.positions@) < max_mantissa(),
                acc@ == cost_sum(self.positions@.take(i as int)),
                mag(acc@) <= cost_total_bound(self.positions@.take(i as int)),
            decreases n - i,
        {
            let ghost s = self.positions@;
            proof {
                assert(s.take(i as int + 1).drop_last() == s.take(i as int));
                assert(s.take(i as int + 1).last() == s[i as int]);
                lemma_bounds_grow(s, Map::empty(), i as int + 1);
            }
            acc = dec_add(acc, self.positions[i].cost_basis);
            i = i + 1;
        }
        proof {
            assert(self.positions@.take(n as int) == self.positions@);
        }
        acc
    }

    /// Sum of the market values at `prices` (symbol code to price); a
    /// position without a price counts at its cost.
    pub fn total_market_value(&self, prices: &KeyedMap<Dec>) -> (r: Dec)
        requires
            valuation_fits(self.positions@, prices@),
        ensures
            r@ == value_sum(self.positions@, prices@),
            mag(r@) <= value_total_bound(self.positions@, prices@),
    {
        let n = self.positions.len();
        let mut acc = Dec::zero();
        let mut i: usize = 0;
        proof {
            assert(self.positions@.take(0) =~= Seq::<Position>::empty());
            lemma_mag_int(0);
        }
        while i < n
            invariant
                n == self.positions@.len(),
                i <= n,
                valuation_fits(self.positions@, prices@),
                acc@ == value_sum(self.positions@.take(i as int), prices@),
                mag(acc@) <= value_total_bound(self.positions@.take(i as int), prices@),
            decreases n - i,
        {
            let ghost s = self.positions@;
            proof {
                assert(s.take(i as int + 1).drop_last() == s.take(i as int));
                assert(s.take(i as int + 1).last() == s[i as int]);
                lemma_bounds_grow(s, prices@, i as int + 1);
                lemma_bounds_grow(s, prices@, 0);
            }
            let p = &self.positions[i];
            let v = match prices.get(p.symbol.code.as_str()) {
                Some(price) => p.market_value(*price),
                None => p.cost_basis,
            };
            acc = dec_add(acc, v);
            i = i + 1;
        }
        proof {
            assert(self.positions@.take(n as int) == self.positions@);
        }
        acc
    }

    /// Total market value minus total cost.
    pub fn total_pnl(&self, prices: &KeyedMap<Dec>) -> (r: Dec)
        requires
            valuation_fits(self.positions@, prices@),
        ensures
            r@ == decimal_difference(value_sum(self.positions@, prices@), cost_sum(self.positions@)),
            mag(r@) <= value_total_bound(self.positions@, prices@) + cost_total_bound(self.positions@) + 2,
    {
        proof {
            lemma_bounds_grow(self.positions@, prices@, 0);
        }
        let mv = self.total_market_value(prices);
        let c = self.total_cost();
        dec_sub(mv, c)
    }

    /// Total profit or loss in percent of total cost; zero when the total
    /// cost is zero.
    pub fn total_pnl_pct(&self, prices: &KeyedMap<Dec>) -> (r: Dec)
        requires
            valuation_fits(self.positions@, prices@),
            cost_sum(self.positions@).0 != 0 ==> percent_fits(
                value_total_bound(self.positions@, prices@) + cost_total_bound(self.positions@) + 2,
                cost_sum(self.positions@),
            ),
        ensures
            r@ == (if cost_sum(self.positions@).0 == 0 {
                zero_model()
            } else {
                decimal_product(
                    decimal_quotient(
                        decimal_difference(value_sum(self.positions@, prices@), cost_sum(self.positions@)),
                        cost_sum(self.positions@),
                    ),
                    int_model(100),
                )
            }),
    {
        proof {
            lemma_bounds_grow(self.positions@, prices@, 0);
        }
        let cost = self.total_cost();
        if cost.is_zero() {
            Dec::zero()
        } else {
            let p = self.total_pnl(prices);
            percent_of(
                p,
                cost,
                Ghost(value_total_bound(self.positions@, prices@) + cost_total_bound(self.positions@) + 2),
            )
        }
    }
}

/// Market value, profit and its percentage of cost for a position at a
/// price, each step as `rust_decimal`'s checked operations give it: `None`
/// where one of them overflows (where the plain operators panic). The
/// percentage is zero when the cost is zero.
pub open spec fn figures_spec(p: Position, price: (int, int)) -> Option<((int, int), (int, int), (int, int))> {
    match decimal_checked_product(p.quantity@, price) {
        None => None,
        Some(mv) => match decimal_checked_difference(mv, p.cost_basis@) {
            None => None,
            Some(pnl) => if p.cost_basis@.0 == 0 {
                Some((mv, pnl, zero_model()))
            } else {
                match decimal_checked_quotient(pnl, p.cost_basis@) {
                    None => None,
                    Some(q) => match decimal_checked_product(q, int_model(100)) {
                        None => None,
                        Some(pct) => Some((mv, pnl, pct)),
                    },
                }
            },
        },
    }
}

/// Law: the figures of a position at a price are its market value
/// (quantity times price), its profit (market value minus cost) and that
/// profit in percent of cost, as the unchecked operations give them; where
/// the subtraction does not round, the profit is exactly market value minus
/// cost, so a market value above the cost gives a positive profit.
pub proof fn lemma_figures(p: Position, price: (int, int))
    ensures
        figures_spec(p, price) matches Some((mv, pnl, pct)) ==> {
            &&& mv == decimal_product(p.quantity@, price)
            &&& pnl == decimal_difference(mv, p.cost_basis@)
            &&& mv == market_value_spec(p, price)
            &&& pnl == pnl_spec(p, price)
            &&& pct == pnl_pct_spec(p, price)
            &&& (difference_exact(mv, p.cost_basis@) ==> at28(pnl) == at28(mv) - at28(p.cost_basis@))
        },
{
}

impl Position {
    /// Market value, profit and profit percentage at `price`, or `None` when
    /// a figure falls outside `rust_decimal`'s range.
    pub fn figures(&self, price: Dec) -> (r: Option<(Dec, Dec, Dec)>)
        ensures
            match figures_spec(*self, price@) {
                None => r is None,
                Some((a, b, c)) => r matches Some((x, y, z)) && x@ == a && y@ == b && z@ == c,
            },
            r matches Some((x, y, z)) ==> x@ == market_value_spec(*self, price@) && y@ == pnl_spec(*self, price@)
                && z@ == pnl_pct_spec(*self, price@),
    {
        proof {
            lemma_figures(*self, price@);
        }
        let mv = dec_checked_mul(self.quantity, price)?;
        let pnl = dec_checked_sub(mv, self.cost_basis)?;
        if self.cost_basis.is_zero() {
            Some((mv, pnl, Dec::zero()))
        } else {
            let q = dec_checked_div(pnl, self.cost_basis)?;
            let pct = dec_checked_mul(q, Dec::from_i64(100))?;
            Some((mv, pnl, pct))
        }
    }
}

/// What a position counts for in the totals, by checked operations: its
/// market value when a price is known for its code, else its cost.
pub open spec fn checked_position_value(p: Position, prices: Map<Seq<char>, Dec>) -> Option<(int, int)> {
    if prices.contains_key(p.symbol.code@) {
        decimal_checked_product(p.quantity@, prices[p.symbol.code@]@)
    } else {
        Some(p.cost_basis@)
    }
}

/// Total cost and total value, each summed left to right from zero by
/// checked additions; `None` where a step overflows.
pub open spec fn totals_spec(s: Seq<Position>, prices: Map<Seq<char>, Dec>) -> Option<((int, int), (int, int))>
    decreases s.len(),
{
    if s.len() == 0 {
        Some((zero_model(), zero_model()))
    } else {
        match totals_spec(s.drop_last(), prices) {
            None => None,
            Some((c, v)) => match decimal_checked_sum(c, s.last().cost_basis@) {
                None => None,
                Some(c2) => match checked_position_value(s.last(), prices) {
                    None => None,
                    Some(pv) => match decimal_checked_sum(v, pv) {
                        None => None,
                        Some(v2) => Some((c2, v2)),
                    },
                },
            },
        }
    }
}

/// Law: adding a position to a portfolio adds its cost to the total cost,
/// and adds to the total value its quantity times its price when a price is
/// known for its code, else its cost.
pub proof fn lemma_totals_step(s: Seq<Position>, prices: Map<Seq<char>, Dec>)
    requires
        s.len() > 0,
    ensures
        totals_spec(s, prices) matches Some((c, v)) ==> {
            &&& totals_spec(s.drop_last(), prices) matches Some((c0, v0))
            &&& c == decimal_sum(c0, s.last().cost_basis@)
            &&& v == decimal_sum(
                v0,
                if prices.contains_key(s.last().symbol.code@) {
                    decimal_product(s.last().quantity@, prices[s.last().symbol.code@]@)
                } else {
                    s.last().cost_basis@
                },
            )
        },
{
}

/// Law: the checked totals, where they do not overflow, are the sums of
/// [`Portfolio::total_cost`] and [`Portfolio::total_market_value`]: the
/// costs, and the positions valued at quantity times price (at cost when
/// no price is known).
pub proof fn lemma_totals_agree(s: Seq<Position>, prices: Map<Seq<char>, Dec>)
    ensures
        totals_spec(s, prices) matches Some((c, v)) ==> c == cost_sum(s) && v == value_sum(s, prices),
    decreases s.len(),
{
    if s.len() > 0 {
        lemma_totals_agree(s.drop_last(), prices);
        lemma_totals_step(s, prices);
    }
}

impl Portfolio {
    /// Total cost, total market value (a position without a price counts
    /// at its cost) and their difference, or `None` when a figure falls
    /// outside `rust_decimal`'s range.
    pub fn totals(&self, prices: &KeyedMap<Dec>) -> (r: Option<(Dec, Dec, Dec)>)
        ensures
            match totals_spec(self.positions@, prices@) {
                None => r is None,
                Some((c, v)) => match decimal_checked_difference(v, c) {
                    None => r is None,
                    Some(d) => r matches Some((x, y, z)) && x@ == c && y@ == v && z@ == d,
                },
            },
            r matches Some((x, y, z)) ==> x@ == cost_sum(self.positions@) && y@ == value_sum(self.positions@, prices@)
                && z@ == decimal_difference(value_sum(self.positions@, prices@), cost_sum(self.positions@)),
    {
        proof {
            lemma_totals_agree(self.positions@, prices@);
        }
        let mut cost = Dec::zero();
        let mut value = Dec::zero();
        let mut i: usize = 0;
        proof {
            assert(self.positions@.take(0) =~= Seq::<Position>::empty());
        }
        while i < self.positions.len()
            invariant
                i <= self.positions@.len(),
                totals_spec(self.positions@.take(i as int), prices@) == Some((cost@, value@)),
            decreases self.positions@.len() - i,
        {
            let ghost s = self.positions@;
            proof {
                assert(s.take(i as int + 1).drop_last() =~= s.take(i as int));
                assert(s.take(i as int + 1).last() == s[i as int]);
            }
            let p = &self.positions[i];
            let next_cost = match dec_checked_add(cost, p.cost_basis) {
                Some(c) => c,
                None => {
                    proof {
                        lemma_totals_stay_none(s, prices@, i as int + 1);
                    }
                    return None;
                },
            };
            let pv = match prices.get(p.symbol.code.as_str()) {
                Some(price) => dec_checked_mul(p.quantity, *price),
                None => Some(p.cost_basis),
            };
            let pv = match pv {
                Some(x) => x,
                None => {
                    proof {
                        lemma_totals_stay_none(s, prices@, i as int + 1);
                    }
                    return None;
                },
            };
            let next_value = match dec_checked_add(value, pv) {
                Some(v) => v,
                None => {
                    proof {
                        lemma_totals_stay_none(s, prices@, i as int + 1);
                    }
                    return None;
                },
            };
            cost = next_cost;
            value = next_value;
            i = i + 1;
        }
        proof {
            assert(self.positions@.take(self.positions@.len() as int) =~= self.positions@);
        }
        let pnl = dec_checked_sub(value, cost)?;
        Some((cost, value, pnl))
    }
}

/// Once a prefix's totals overflow, so do those of every longer prefix.
proof fn lemma_totals_stay_none(s: Seq<Position>, prices: Map<Seq<char>, Dec>, k: int)
    requires
        0 <= k <= s.len(),
        totals_spec(s.take(k), prices) is None,
    ensures
        totals_spec(s, prices) is None,
    decreases s.len() - k,
{
    if k < s.len() {
        assert(s.take(k + 1).drop_last() =~= s.take(k));
        lemma_totals_stay_none(s, prices, k + 1);
    } else {
        assert(s.take(k) =~= s);
    }
}

} // verus!
