//! Bringing a store that was read from an older file into today's shape.

use super::{
    default_news_source_texts, default_news_sources, default_portfolios, Config, ConfigModel,
    Holding, HoldingModel, Portfolio, PortfolioModel, TextIs, Watchlist, WatchlistModel,
};
use crate::rows::{filter_rows, find_row, keep_where, test_of, Except, RowFilter};
use vstd::prelude::*;

verus! {

/// `s` with every text of `more` that it lacks added at the end, in the
/// order of `more`.
pub open spec fn with_missing(s: Seq<Seq<char>>, more: Seq<Seq<char>>) -> Seq<Seq<char>>
    decreases more.len(),
{
    if more.len() == 0 {
        s
    } else {
        let front = with_missing(s, more.drop_last());
        if front.contains(more.last()) {
            front
        } else {
            front.push(more.last())
        }
    }
}

/// The feed that no longer answers.
pub open spec fn dead_news_source() -> Seq<char> {
    "https://www.kontan.co.id/rss/investasi"@
}

impl ConfigModel {
    /// The store with the holdings of the old flat layout moved into the
    /// portfolios: into the only portfolio where that one is empty, else
    /// into a new one named "Imported". Afterwards there is at least one
    /// portfolio, and the active index points at one.
    pub open spec fn migrate_portfolio(self) -> ConfigModel {
        let moved = if self.portfolio.len() == 0 {
            self.portfolios
        } else if self.portfolios.len() == 1 && self.portfolios[0].holdings.len() == 0 {
            self.portfolios.update(
                0,
                PortfolioModel { holdings: self.portfolio, ..self.portfolios[0] },
            )
        } else {
            self.portfolios.push(PortfolioModel { name: "Imported"@, holdings: self.portfolio })
        };
        let portfolios = if moved.len() == 0 {
            seq![PortfolioModel { name: "Default"@, holdings: Seq::empty() }]
        } else {
            moved
        };
        ConfigModel {
            portfolio: Seq::empty(),
            portfolios,
            active_portfolio: if self.active_portfolio >= portfolios.len() {
                0
            } else {
                self.active_portfolio
            },
            ..self
        }
    }

    /// The feeds without the dead one.
    pub open spec fn live_news_sources(self) -> Seq<Seq<char>> {
        keep_where(self.news_sources, |u: Seq<char>| u != dead_news_source())
    }

    /// The store with the dead feed dropped and the default feeds that were
    /// missing added.
    pub open spec fn migrate_news_sources(self) -> ConfigModel {
        ConfigModel {
            news_sources: with_missing(self.live_news_sources(), default_news_source_texts()),
            ..self
        }
    }

    /// The store with a watchlist to show: the default one where there was
    /// none, and the first one active where the index pointed at none.
    pub open spec fn ensure_watchlist(self) -> ConfigModel {
        let watchlists = if self.watchlists.len() == 0 {
            seq![
                WatchlistModel {
                    name: "Default"@,
                    symbols: seq!["BBCA"@, "BBRI"@, "TLKM"@, "ASII"@],
                },
            ]
        } else {
            self.watchlists
        };
        ConfigModel {
            watchlists,
            active_watchlist: if self.active_watchlist >= watchlists.len() {
                0
            } else {
                self.active_watchlist
            },
            ..self
        }
    }

    /// The store as it is used after it was read from a file.
    pub open spec fn migrated(self) -> ConfigModel {
        self.ensure_watchlist().migrate_portfolio().migrate_news_sources()
    }
}

impl Config {
    /// Moves the holdings of the old flat layout into the portfolios and
    /// makes sure that there is a portfolio and that the active index points
    /// at one. Returns whether holdings were moved, in which case the store
    /// should be written back.
    pub fn migrate_portfolio(&mut self) -> (moved: bool)
        requires
            old(self).portfolios.len() < usize::MAX,
        ensures
            final(self)@ == old(self)@.migrate_portfolio(),
            moved == (old(self).portfolio.len() > 0),
            final(self).active_portfolio < final(self).portfolios.len(),
    {
        let mut moved = false;
        if !self.portfolio.is_empty() {
            moved = true;
            let mut holdings: Vec<Holding> = Vec::new();
            core::mem::swap(&mut self.portfolio, &mut holdings);
            let ghost models = holdings.deep_view();
            if self.portfolios.len() == 1 && self.portfolios[0].holdings.is_empty() {
                self.portfolios[0].holdings = holdings;
                assert(old(self)@.portfolios[0].holdings.len() == 0);
                assert(self.portfolios.deep_view() =~= old(self)@.portfolios.update(
                    0,
                    PortfolioModel { holdings: models, ..old(self)@.portfolios[0] },
                ));
            } else {
                self.portfolios.push(Portfolio { name: String::from_str("Imported"), holdings });
                assert(old(self).portfolios.len() == 1 ==> old(self)@.portfolios[0].holdings.len()
                    != 0);
                assert(self.portfolios.deep_view() =~= old(self)@.portfolios.push(
                    PortfolioModel { name: "Imported"@, holdings: models },
                ));
            }
        } else {
            assert(self.portfolios.deep_view() =~= old(self)@.portfolios);
        }
        assert(self.portfolio.deep_view() =~= Seq::<HoldingModel>::empty());
        if self.portfolios.is_empty() {
            self.portfolios = default_portfolios();
        }
        if self.active_portfolio >= self.portfolios.len() {
            self.active_portfolio = 0;
        }
        moved
    }

    /// Drops the dead news feed and adds the default feeds that are
    /// missing. Returns whether a feed was added.
    pub fn migrate_news_sources(&mut self) -> (changed: bool)
        ensures
            final(self)@ == old(self)@.migrate_news_sources(),
            changed == (final(self)@.news_sources != old(self)@.live_news_sources()),
    {
        let filter = Except { inner: TextIs { text: "https://www.kontan.co.id/rss/investasi" } };
        filter_rows(&mut self.news_sources, &filter);
        proof {
            assert(test_of::<String, Except<TextIs>>(&filter) =~= (|u: Seq<char>|
                u != dead_news_source()));
        }
        let ghost live = self.news_sources.deep_view();
        let defaults = default_news_sources();
        let mut changed = false;
        let mut i: usize = 0;
        while i < defaults.len()
            invariant
                i <= defaults.len(),
                defaults.deep_view() == default_news_source_texts(),
                self.news_sources.deep_view() == with_missing(
                    live,
                    defaults.deep_view().take(i as int),
                ),
                changed == (self.news_sources.deep_view() != live),
                live.len() <= self.news_sources.len(),
                *self == (Config { news_sources: self.news_sources, ..*old(self) }),
            decreases defaults.len() - i,
        {
            proof {
                assert(defaults.deep_view().take(i + 1).drop_last() =~= defaults.deep_view().take(
                    i as int,
                ));
            }
            let ghost before = self.news_sources.deep_view();
            let wanted = TextIs { text: defaults[i].as_str() };
            let found = find_row(&self.news_sources, &wanted);
            proof {
                let url = defaults.deep_view()[i as int];
                match found {
                    Some(k) => {
                        assert(wanted.keeps(before[k as int]));
                        assert(before.contains(url));
                    },
                    None => {
                        assert forall|k: int| 0 <= k < before.len() implies before[k] != url by {
                            assert(!wanted.keeps(before[k]));
                        }
                        assert(!before.contains(url));
                    },
                }
            }
            if found.is_none() {
                self.news_sources.push(defaults[i].clone());
                assert(self.news_sources.deep_view() =~= before.push(
                    defaults.deep_view()[i as int],
                ));
                changed = true;
            }
            i += 1;
        }
        assert(defaults.deep_view().take(defaults.len() as int) =~= defaults.deep_view());
        changed
    }

    /// Brings a store that was read from a file into shape: a watchlist
    /// exists, both active indices point at something, old holdings are
    /// moved and the news feeds are brought up to date. Returns whether the
    /// store should be written back.
    pub fn migrate(&mut self) -> (changed: bool)
        requires
            old(self).portfolios.len() < usize::MAX,
        ensures
            final(self)@ == old(self)@.migrated(),
            final(self).wf(),
            changed == (old(self).portfolio.len() > 0 || final(self)@.news_sources
                != old(self)@.live_news_sources()),
    {
        if self.watchlists.is_empty() {
            self.watchlists.push(Watchlist::default());
            assert(self.watchlists.deep_view() =~= seq![
                WatchlistModel {
                    name: "Default"@,
                    symbols: seq!["BBCA"@, "BBRI"@, "TLKM"@, "ASII"@],
                },
            ]);
        }
        if self.active_watchlist >= self.watchlists.len() {
            self.active_watchlist = 0;
        }
        assert(self@ == old(self)@.ensure_watchlist());
        let moved = self.migrate_portfolio();
        let added = self.migrate_news_sources();
        moved || added
    }
}

} // verus!
