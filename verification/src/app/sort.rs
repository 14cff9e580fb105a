//! The column comparisons of the views, as `Ordering`s.

use super::keys::{
    news_relation, portfolio_relation, relate_holdings, relate_news, relate_watchlist_rows,
    watchlist_relation,
};
use super::SortDirection;
use crate::api::{NewsItem, StockQuote};
use crate::config::Holding;
use crate::quotes::QuoteCache;
use crate::relation::Relation;
use std::cmp::Ordering;
use vstd::prelude::*;

verus! {

/// The `Ordering` that says what a relation says.
pub open spec fn ordering_of(relation: Relation) -> Ordering {
    match relation {
        Relation::Before => Ordering::Less,
        Relation::Same => Ordering::Equal,
        Relation::After => Ordering::Greater,
    }
}

/// The `Ordering` that says what a relation says.
pub fn to_ordering(relation: Relation) -> (o: Ordering)
    ensures
        o == ordering_of(relation),
{
    match relation {
        Relation::Before => Ordering::Less,
        Relation::Same => Ordering::Equal,
        Relation::After => Ordering::Greater,
    }
}

/// Compares two watchlist rows in a column: symbol, name, price, change,
/// change in percent, open, high, low, volume, traded value; any other
/// column tells no rows apart. The direction reverses the result, except
/// that a row without a quote always comes last.
pub fn compare_watchlist_column(
    col: usize,
    a: &(&String, Option<&StockQuote>),
    b: &(&String, Option<&StockQuote>),
    direction: SortDirection,
) -> (o: Ordering)
    ensures
        o == ordering_of(watchlist_relation(col, a.1.deep_view(), b.1.deep_view(), direction)),
{
    to_ordering(relate_watchlist_rows(col, a.1, b.1, direction))
}

/// Compares two holdings in a column: symbol, name, lots, average price,
/// market price, value, cost, gain, gain in percent; any other column tells
/// no holdings apart. A holding without a quote counts with price 0 and an
/// empty name.
pub fn compare_portfolio_column(col: usize, a: &Holding, b: &Holding, quotes: &QuoteCache) -> (o:
    Ordering)
    ensures
        o == ordering_of(portfolio_relation(col, a@, b@, quotes@)),
{
    to_ordering(relate_holdings(col, a, b, quotes))
}

/// Compares two news items in a column: time, publisher, title; any other
/// column tells no items apart.
pub fn compare_news_column(col: usize, a: &NewsItem, b: &NewsItem) -> (o: Ordering)
    ensures
        o == ordering_of(news_relation(col, a@, b@)),
{
    to_ordering(relate_news(col, a, b))
}

} // verus!
