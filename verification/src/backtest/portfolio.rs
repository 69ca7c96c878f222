//! Cash and position bookkeeping of a backtest.

use vstd::prelude::*;
use crate::decimal::{
    Dec, Overflow, or_overflow, dec_checked_add, dec_checked_div, dec_checked_mul, dec_checked_sub, dec_floor,
    dec_le, dec_to_i64, decimal_checked_difference, decimal_checked_product,
    decimal_checked_quotient, decimal_checked_sum, int_model, lemma_compare_zero, lemma_dec_scale,
    pow10, trunc_value,
};

verus! {

broadcast use lemma_dec_scale;

/// Cash, shares held and what the shares cost (commission included).
pub struct Portfolio {
    pub cash: Dec,
    pub position: i64,
    pub cost_basis: Dec,
}

/// What a "buy with all cash" comes to.
pub enum BuyOutcome {
    /// A decimal operation overflowed.
    Overflow,
    /// No shares could be bought.
    NoTrade,
    /// `shares` bought; the new cash and cost basis.
    Bought { shares: int, cash: (int, int), cost_basis: (int, int) },
}

/// What a "sell everything" comes to.
pub enum SellOutcome {
    /// A decimal operation overflowed.
    Overflow,
    /// Nothing to sell.
    NoTrade,
    /// `shares` sold for `net` after commission, realising `pnl`; the new cash.
    Sold { shares: int, net: (int, int), pnl: (int, int), cash: (int, int) },
}

/// `bps / 10000`.
pub open spec fn bps_rate(bps: (int, int)) -> Option<(int, int)> {
    decimal_checked_quotient(bps, int_model(10000))
}

/// How a "buy with all cash" is planned, before the cash is paid out.
pub enum BuyPlan {
    /// A decimal operation overflowed.
    Overflow,
    /// No shares can be bought.
    NoTrade,
    /// `shares` to buy for `total`, commission included.
    Spend { shares: int, total: (int, int) },
}

/// The buy plan: with positive cash, no position and a positive fill price,
/// `floor(cash / (fill * (1 + rate)))` shares when that is a positive `i64`,
/// costing `shares * fill` plus commission at `rate = bps / 10000`.
pub open spec fn buy_plan(cash: (int, int), position: int, fill: (int, int), bps: (int, int)) -> BuyPlan {
    if cash.0 <= 0 || position > 0 || fill.0 <= 0 {
        BuyPlan::NoTrade
    } else {
        match bps_rate(bps) {
            None => BuyPlan::Overflow,
            Some(rate) => match decimal_checked_sum(int_model(1), rate) {
                None => BuyPlan::Overflow,
                Some(onep) => match decimal_checked_product(fill, onep) {
                    None => BuyPlan::Overflow,
                    Some(denom) => match decimal_checked_quotient(cash, denom) {
                        None => BuyPlan::Overflow,
                        Some(q) => {
                            let shares = q.0 / pow10(q.1 as nat);
                            if shares < i64::MIN || shares > i64::MAX || shares <= 0 {
                                BuyPlan::NoTrade
                            } else {
                                match decimal_checked_product(fill, int_model(shares)) {
                                    None => BuyPlan::Overflow,
                                    Some(cost) => match decimal_checked_product(cost, rate) {
                                        None => BuyPlan::Overflow,
                                        Some(comm) => match decimal_checked_sum(cost, comm) {
                                            None => BuyPlan::Overflow,
                                            Some(total) => BuyPlan::Spend { shares, total },
                                        },
                                    },
                                }
                            }
                        },
                    },
                },
            },
        }
    }
}

/// The buy rule: the planned total is taken from the cash and added to the
/// cost basis.
pub open spec fn buy_outcome(
    cash: (int, int),
    position: int,
    cost_basis: (int, int),
    fill: (int, int),
    bps: (int, int),
) -> BuyOutcome {
    match buy_plan(cash, position, fill, bps) {
        BuyPlan::Overflow => BuyOutcome::Overflow,
        BuyPlan::NoTrade => BuyOutcome::NoTrade,
        BuyPlan::Spend { shares, total } => match decimal_checked_difference(cash, total) {
            None => BuyOutcome::Overflow,
            Some(nc) => match decimal_checked_sum(cost_basis, total) {
                None => BuyOutcome::Overflow,
                Some(nb) => BuyOutcome::Bought { shares, cash: nc, cost_basis: nb },
            },
        },
    }
}

/// The sell rule: with a positive position, sell it at `fill`; commission is
/// `gross * bps / 10000`, the net proceeds go to cash and the profit is the
/// net minus the cost basis.
pub open spec fn sell_outcome(
    cash: (int, int),
    position: int,
    cost_basis: (int, int),
    fill: (int, int),
    bps: (int, int),
) -> SellOutcome {
    if position <= 0 {
        SellOutcome::NoTrade
    } else {
        match decimal_checked_product(fill, int_model(position)) {
            None => SellOutcome::Overflow,
            Some(gross) => match decimal_checked_product(gross, bps) {
                None => SellOutcome::Overflow,
                Some(gb) => match decimal_checked_quotient(gb, int_model(10000)) {
                    None => SellOutcome::Overflow,
                    Some(comm) => match decimal_checked_difference(gross, comm) {
                        None => SellOutcome::Overflow,
                        Some(net) => match decimal_checked_difference(net, cost_basis) {
                            None => SellOutcome::Overflow,
                            Some(pnl) => match decimal_checked_sum(cash, net) {
                                None => SellOutcome::Overflow,
                                Some(nc) => SellOutcome::Sold { shares: position, net, pnl, cash: nc },
                            },
                        },
                    },
                },
            },
        }
    }
}

/// Cash plus the position valued at `price`.
pub open spec fn total_value_spec(cash: (int, int), position: int, price: (int, int)) -> Option<(int, int)> {
    match decimal_checked_product(price, int_model(position)) {
        None => None,
        Some(v) => decimal_checked_sum(cash, v),
    }
}

impl Portfolio {
    /// All cash, no shares.
    pub fn new(initial_cash: Dec) -> (r: Portfolio)
        ensures
            r.cash == initial_cash,
            r.position == 0,
            r.cost_basis@ == int_model(0),
    {
        Portfolio { cash: initial_cash, position: 0, cost_basis: Dec::zero() }
    }

    /// Cash plus the position valued at `current_price`.
    pub fn total_value(&self, current_price: Dec) -> (r: Result<Dec, Overflow>)
        ensures
            match total_value_spec(self.cash@, self.position as int, current_price@) {
                Some(v) => r matches Ok(x) && x@ == v,
                None => r is Err,
            },
    {
        let held = or_overflow(dec_checked_mul(current_price, Dec::from_i64(self.position)))?;
        or_overflow(dec_checked_add(self.cash, held))
    }

    /// Buys as many shares as the cash allows at `fill_price`, commission
    /// included. `Ok(Some((shares, fill_price)))` after a purchase,
    /// `Ok(None)` when nothing can be bought (state unchanged), `Err` on a
    /// decimal overflow (state unchanged).
    pub fn buy_all(&mut self, fill_price: Dec, commission_bps: Dec) -> (r: Result<Option<(i64, Dec)>, Overflow>)
        ensures
            match buy_outcome(old(self).cash@, old(self).position as int, old(self).cost_basis@, fill_price@, commission_bps@) {
                BuyOutcome::Overflow => r is Err && *final(self) == *old(self),
                BuyOutcome::NoTrade => r == Ok::<Option<(i64, Dec)>, Overflow>(None) && *final(self) == *old(self),
                BuyOutcome::Bought { shares, cash, cost_basis } => {
                    &&& r matches Ok(Some((n, p))) && n == shares && p == fill_price
                    &&& final(self).cash@ == cash
                    &&& final(self).cost_basis@ == cost_basis
                    &&& final(self).position == old(self).position + shares
                },
            },
    {
        let zero = Dec::zero();
        proof {
            lemma_compare_zero(self.cash@);
            lemma_compare_zero(fill_price@);
        }
        if dec_le(self.cash, zero) || self.position > 0 || dec_le(fill_price, zero) {
            return Ok(None);
        }
        let rate = or_overflow(dec_checked_div(commission_bps, Dec::from_i64(10000)))?;
        let onep = or_overflow(dec_checked_add(Dec::from_i64(1), rate))?;
        let denom = or_overflow(dec_checked_mul(fill_price, onep))?;
        let q = or_overflow(dec_checked_div(self.cash, denom))?;
        let shares_dec = dec_floor(q);
        let ghost whole: int = q@.0 / pow10(q@.1 as nat);
        proof {
            assert(pow10(0) == 1);
            assert(shares_dec@ == (whole, 0int));
            assert(trunc_value(shares_dec@) == whole) by {
                assert((-whole) / 1 == -whole);
                assert(whole / 1 == whole);
            }
        }
        let shares = match dec_to_i64(shares_dec) {
            Some(n) => n,
            None => {
                return Ok(None);
            },
        };
        assert(shares as int == whole);
        if shares <= 0 {
            return Ok(None);
        }
        let cost = or_overflow(dec_checked_mul(fill_price, Dec::from_i64(shares)))?;
        let commission = or_overflow(dec_checked_mul(cost, rate))?;
        let total = or_overflow(dec_checked_add(cost, commission))?;
        let new_cash = or_overflow(dec_checked_sub(self.cash, total))?;
        let new_basis = or_overflow(dec_checked_add(self.cost_basis, total))?;
        self.cash = new_cash;
        self.position = self.position + shares;
        self.cost_basis = new_basis;
        Ok(Some((shares, fill_price)))
    }

    /// Sells the whole position at `fill_price`.
    /// `Ok(Some((shares, net, pnl)))` after a sale, `Ok(None)` when flat
    /// (state unchanged), `Err` on a decimal overflow (state unchanged).
    pub fn sell_all(&mut self, fill_price: Dec, commission_bps: Dec) -> (r: Result<Option<(i64, Dec, Dec)>, Overflow>)
        ensures
            match sell_outcome(old(self).cash@, old(self).position as int, old(self).cost_basis@, fill_price@, commission_bps@) {
                SellOutcome::Overflow => r is Err && *final(self) == *old(self),
                SellOutcome::NoTrade => r == Ok::<Option<(i64, Dec, Dec)>, Overflow>(None) && *final(self) == *old(self),
                SellOutcome::Sold { shares, net, pnl, cash } => {
                    &&& r matches Ok(Some((n, x, y))) && n == shares && x@ == net && y@ == pnl
                    &&& final(self).cash@ == cash
                    &&& final(self).cost_basis@ == int_model(0)
                    &&& final(self).position == 0
                },
            },
    {
        if self.position <= 0 {
            return Ok(None);
        }
        let shares = self.position;
        let gross = or_overflow(dec_checked_mul(fill_price, Dec::from_i64(shares)))?;
        let gb = or_overflow(dec_checked_mul(gross, commission_bps))?;
        let commission = or_overflow(dec_checked_div(gb, Dec::from_i64(10000)))?;
        let net = or_overflow(dec_checked_sub(gross, commission))?;
        let pnl = or_overflow(dec_checked_sub(net, self.cost_basis))?;
        let new_cash = or_overflow(dec_checked_add(self.cash, net))?;
        self.cash = new_cash;
        self.position = 0;
        self.cost_basis = Dec::zero();
        Ok(Some((shares, net, pnl)))
    }
}

} // verus!
