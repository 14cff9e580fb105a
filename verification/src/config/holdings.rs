//! Holdings of the active portfolio.

use super::{
    held_other_than, lemma_merged_average_bounds, lemma_position_bounds, merged_average, Config,
    ConfigModel, Holding, HoldingModel, HoldingOf, PortfolioModel,
};
use crate::rows::{filter_rows, find_row, keep_where, test_of, Except};
use crate::text::uppercase_of;
use vstd::prelude::*;

verus! {

/// The symbols of a run of holdings, in order.
pub open spec fn symbols_of(holdings: Seq<HoldingModel>) -> Seq<Seq<char>> {
    Seq::new(holdings.len(), |i: int| holdings[i].symbol)
}

/// The lot-weighted average of a holding's price and a new price, rounded
/// down; the holding's own price where no lots are involved.
pub fn merge_average(lots_a: u32, price_a: u64, lots_b: u32, price_b: u64) -> (r: u64)
    ensures
        r == merged_average(lots_a, price_a, lots_b, price_b),
{
    proof {
        lemma_merged_average_bounds(lots_a, price_a, lots_b, price_b);
        lemma_position_bounds(lots_a, price_a);
        lemma_position_bounds(lots_b, price_b);
    }
    let shares_a: u128 = lots_a as u128 * 100;
    let shares_b: u128 = lots_b as u128 * 100;
    let shares: u128 = shares_a + shares_b;
    if shares == 0 {
        return price_a;
    }
    let cost_a: u128 = shares_a * price_a as u128;
    let cost_b: u128 = shares_b * price_b as u128;
    ((cost_a + cost_b) / shares) as u64
}

impl Config {
    /// Adds a new holding to the active portfolio, or merges the lots into
    /// the holding that is there for the symbol (taken in upper case), whose
    /// price becomes the lot-weighted average. Returns `false`, and changes
    /// nothing, where the merged lots would not fit 32 bits.
    pub fn add_holding(&mut self, symbol: &str, lots: u32, avg_price: u64) -> (ok: bool)
        requires
            old(self).active_portfolio < old(self).portfolios.len(),
        ensures
            ok == old(self)@.add_holding_accepted(uppercase_of(symbol@), lots),
            final(self)@ == old(self)@.add_holding(uppercase_of(symbol@), lots, avg_price),
            !ok ==> final(self)@ == old(self)@,
            final(self).wf() == old(self).wf(),
    {
        proof {
            reveal(ConfigModel::add_holding);
            reveal(ConfigModel::add_holding_accepted);
        }
        let symbol = symbol.to_uppercase();
        let a = self.active_portfolio;
        let ghost holdings = old(self)@.current_portfolio().holdings;
        let ghost pred = |h: HoldingModel| h.symbol == symbol@;
        let filter = HoldingOf { symbol: symbol.as_str() };
        let found = find_row(&self.portfolios[a].holdings, &filter);
        assert(test_of::<Holding, HoldingOf>(&filter) =~= pred);
        match found {
            Some(i) => {
                let held = self.portfolios[a].holdings[i].lots;
                if held > u32::MAX - lots {
                    return false;
                }
                let price = merge_average(held, self.portfolios[a].holdings[i].avg_price, lots, avg_price);
                self.portfolios[a].holdings[i].avg_price = price;
                self.portfolios[a].holdings[i].lots = held + lots;
                proof {
                    let merged = HoldingModel {
                        symbol: holdings[i as int].symbol,
                        lots: (held + lots) as u32,
                        avg_price: price,
                    };
                    assert(self.portfolios[a as int].holdings.deep_view() =~= holdings.update(
                        i as int,
                        merged,
                    ));
                    assert(self.portfolios.deep_view() =~= old(self)@.portfolios.update(
                        a as int,
                        PortfolioModel {
                            holdings: holdings.update(i as int, merged),
                            ..old(self)@.current_portfolio()
                        },
                    ));
                }
                true
            },
            None => {
                let ghost added = HoldingModel { symbol: symbol@, lots, avg_price };
                self.portfolios[a].holdings.push(Holding { symbol, lots, avg_price });
                proof {
                    assert(self.portfolios[a as int].holdings.deep_view() =~= holdings.push(added));
                    assert(self.portfolios.deep_view() =~= old(self)@.portfolios.update(
                        a as int,
                        PortfolioModel {
                            holdings: holdings.push(added),
                            ..old(self)@.current_portfolio()
                        },
                    ));
                }
                true
            },
        }
    }

    /// Removes the holdings of a symbol, taken in upper case, from the active
    /// portfolio.
    pub fn remove_holding(&mut self, symbol: &str)
        requires
            old(self).active_portfolio < old(self).portfolios.len(),
        ensures
            final(self)@ == old(self)@.remove_holding(uppercase_of(symbol@)),
            final(self).wf() == old(self).wf(),
    {
        let symbol = symbol.to_uppercase();
        self.remove_holdings_of(symbol.as_str());
    }

    /// Removes the holdings of a symbol, exactly as it is written, from the
    /// active portfolio.
    pub fn remove_holdings_of(&mut self, symbol: &str)
        requires
            old(self).active_portfolio < old(self).portfolios.len(),
        ensures
            final(self)@ == old(self)@.remove_holding(symbol@),
            final(self).wf() == old(self).wf(),
    {
        let a = self.active_portfolio;
        let ghost holdings = old(self)@.current_portfolio().holdings;
        let filter = Except { inner: HoldingOf { symbol } };
        filter_rows(&mut self.portfolios[a].holdings, &filter);
        proof {
            assert(test_of::<Holding, Except<HoldingOf>>(&filter) =~= held_other_than(symbol@));
            assert(self.portfolios.deep_view() =~= old(self)@.portfolios.update(
                a as int,
                PortfolioModel {
                    holdings: keep_where(holdings, held_other_than(symbol@)),
                    ..old(self)@.current_portfolio()
                },
            ));
        }
    }

    /// Gives the first holding of exactly this symbol in the active
    /// portfolio new lots and a new average price; changes nothing where
    /// there is none.
    pub fn update_holding(&mut self, symbol: &str, lots: u32, avg_price: u64)
        requires
            old(self).active_portfolio < old(self).portfolios.len(),
        ensures
            final(self)@ == old(self)@.update_holding(symbol@, lots, avg_price),
            final(self).wf() == old(self).wf(),
    {
        let a = self.active_portfolio;
        let ghost holdings = old(self)@.current_portfolio().holdings;
        let ghost pred = |h: HoldingModel| h.symbol == symbol@;
        let filter = HoldingOf { symbol };
        let found = find_row(&self.portfolios[a].holdings, &filter);
        assert(test_of::<Holding, HoldingOf>(&filter) =~= pred);
        match found {
            Some(i) => {

                self.portfolios[a].holdings[i].lots = lots;
                self.portfolios[a].holdings[i].avg_price = avg_price;
                proof {
                    let changed = HoldingModel {
                        symbol: holdings[i as int].symbol,
                        lots,
                        avg_price,
                    };
                    assert(self.portfolios[a as int].holdings.deep_view() =~= holdings.update(
                        i as int,
                        changed,
                    ));
                    assert(self.portfolios.deep_view() =~= old(self)@.portfolios.update(
                        a as int,
                        PortfolioModel {
                            holdings: holdings.update(i as int, changed),
                            ..old(self)@.current_portfolio()
                        },
                    ));
                }
            },
            None => {},
        }
    }

    /// The symbols of the active portfolio's holdings, in order.
    pub fn portfolio_symbols(&self) -> (r: Vec<String>)
        requires
            self.active_portfolio < self.portfolios.len(),
        ensures
            r.deep_view() == symbols_of(self@.current_portfolio().holdings),
    {
        let holdings = &self.portfolios[self.active_portfolio].holdings;
        let mut r: Vec<String> = Vec::new();
        let mut i: usize = 0;
        while i < holdings.len()
            invariant
                i <= holdings.len(),
                r.deep_view() == symbols_of(holdings.deep_view().take(i as int)),
            decreases holdings.len() - i,
        {
            let ghost before = r.deep_view();
            r.push(holdings[i].symbol.clone());
            assert(r.deep_view() =~= before.push(holdings[i as int].symbol@));
            assert(r.deep_view() =~= symbols_of(holdings.deep_view().take(i + 1)));
            i += 1;
        }
        assert(holdings.deep_view().take(holdings.len() as int) =~= holdings.deep_view());
        r
    }
}

} // verus!
