//! The rows of each view: the source records, filtered by the search text
//! and sorted by the chosen column.

use super::keys::{
    bookmark_relation, directed, effective_sort, news_relation, portfolio_relation,
    watchlist_relation, BookmarkOrder, NewsOrder, PortfolioOrder, WatchlistOrder,
};
use super::{App, AppModel, InputMode};
use crate::api::{NewsItem, NewsItemModel, StockQuote, StockQuoteModel};
use crate::config::{Bookmark, BookmarkModel, Holding, HoldingModel};
use crate::quotes::quote_of;
use crate::rows::{
    filter_rows, keep_where, order_of, row_refs, sort_rows, stable_sort, test_of, RowFilter,
};
use crate::text::{contains, contains_text, trim, trimmed, uppercase_of};
use vstd::prelude::*;

verus! {

/// Whether a text passes the search: always while no search is active,
/// else when its upper-case form holds the query.
pub open spec fn search_hit(active: bool, query: Seq<char>, text: Seq<char>) -> bool {
    !active || contains_text(uppercase_of(text), query)
}

/// The search of a session as a row filter.
pub struct SearchFilter<'a> {
    pub active: bool,
    pub query: &'a str,
}

impl<'a> SearchFilter<'a> {
    /// Whether a text passes the search.
    pub fn hit(&self, text: &str) -> (r: bool)
        ensures
            r == search_hit(self.active, self.query@, text@),
    {
        if !self.active {
            return true;
        }
        let upper = text.to_uppercase();
        contains(upper.as_str(), self.query)
    }
}

impl<'a, 'r> RowFilter<(&'r String, Option<&'r StockQuote>)> for SearchFilter<'a> {
    open spec fn keeps(&self, row: (Seq<char>, Option<StockQuoteModel>)) -> bool {
        search_hit(self.active, self.query@, row.0)
    }

    fn keep(&self, row: &(&'r String, Option<&'r StockQuote>)) -> (r: bool) {
        self.hit(row.0.as_str())
    }
}

impl<'a, 'r> RowFilter<(usize, &'r Holding)> for SearchFilter<'a> {
    open spec fn keeps(&self, row: (usize, HoldingModel)) -> bool {
        search_hit(self.active, self.query@, row.1.symbol)
    }

    fn keep(&self, row: &(usize, &'r Holding)) -> (r: bool) {
        self.hit(row.1.symbol.as_str())
    }
}

impl<'a, 'r> RowFilter<&'r NewsItem> for SearchFilter<'a> {
    open spec fn keeps(&self, row: NewsItemModel) -> bool {
        search_hit(self.active, self.query@, row.title) || search_hit(
            self.active,
            self.query@,
            row.publisher,
        )
    }

    fn keep(&self, row: &&'r NewsItem) -> (r: bool) {
        self.hit(row.title.as_str()) || self.hit(row.publisher.as_str())
    }
}

impl<'a, 'r> RowFilter<&'r Bookmark> for SearchFilter<'a> {
    open spec fn keeps(&self, row: BookmarkModel) -> bool {
        search_hit(self.active, self.query@, row.headline) || search_hit(
            self.active,
            self.query@,
            row.source,
        )
    }

    fn keep(&self, row: &&'r Bookmark) -> (r: bool) {
        self.hit(row.headline.as_str()) || self.hit(row.source.as_str())
    }
}

impl AppModel {
    /// The active watchlist, each symbol with its quote where one is
    /// loaded.
    pub open spec fn raw_watchlist(self) -> Seq<(Seq<char>, Option<StockQuoteModel>)> {
        let symbols = self.config.current_watchlist().symbols;
        Seq::new(symbols.len(), |i: int| (symbols[i], quote_of(self.quotes, symbols[i])))
    }

    /// The holdings of the active portfolio, each with its place in it.
    pub open spec fn raw_portfolio(self) -> Seq<(usize, HoldingModel)> {
        let holdings = self.config.current_portfolio().holdings;
        Seq::new(holdings.len(), |i: int| (i as usize, holdings[i]))
    }

    /// Whether a watchlist row passes the search, which goes by the symbol.
    pub open spec fn keeps_watchlist_row(self) -> spec_fn(
        (Seq<char>, Option<StockQuoteModel>),
    ) -> bool {
        |row: (Seq<char>, Option<StockQuoteModel>)|
            search_hit(self.search_active, self.search_query, row.0)
    }

    /// Whether a portfolio row passes the search, which goes by the symbol.
    pub open spec fn keeps_portfolio_row(self) -> spec_fn((usize, HoldingModel)) -> bool {
        |row: (usize, HoldingModel)| search_hit(self.search_active, self.search_query, row.1.symbol)
    }

    /// Whether a news item passes the search, which goes by title and
    /// publisher.
    pub open spec fn keeps_news_row(self) -> spec_fn(NewsItemModel) -> bool {
        |row: NewsItemModel|
            search_hit(self.search_active, self.search_query, row.title) || search_hit(
                self.search_active,
                self.search_query,
                row.publisher,
            )
    }

    /// Whether a bookmark passes the search, which goes by headline and
    /// source.
    pub open spec fn keeps_bookmark_row(self) -> spec_fn(BookmarkModel) -> bool {
        |row: BookmarkModel|
            search_hit(self.search_active, self.search_query, row.headline) || search_hit(
                self.search_active,
                self.search_query,
                row.source,
            )
    }

    /// The order of watchlist rows in a column.
    pub open spec fn watchlist_order(self, col: usize) -> spec_fn(
        (Seq<char>, Option<StockQuoteModel>),
        (Seq<char>, Option<StockQuoteModel>),
    ) -> bool {
        |a: (Seq<char>, Option<StockQuoteModel>), b: (Seq<char>, Option<StockQuoteModel>)|
            watchlist_relation(col, a.1, b.1, self.watchlist_sort_direction).not_after()
    }

    /// The order of portfolio rows in a column.
    pub open spec fn portfolio_order(self, col: usize) -> spec_fn(
        (usize, HoldingModel),
        (usize, HoldingModel),
    ) -> bool {
        |a: (usize, HoldingModel), b: (usize, HoldingModel)|
            directed(
                portfolio_relation(col, a.1, b.1, self.quotes),
                self.portfolio_sort_direction,
            ).not_after()
    }

    /// The order of the news feed: by the chosen column, or newest first.
    pub open spec fn news_order(self) -> spec_fn(NewsItemModel, NewsItemModel) -> bool {
        |a: NewsItemModel, b: NewsItemModel|
            {
                let (col, direction) = effective_sort(
                    self.news_sort_column,
                    self.news_sort_direction,
                );
                directed(news_relation(col, a, b), direction).not_after()
            }
    }

    /// The order of the bookmarks: by the chosen column, or the latest
    /// bookmark first.
    pub open spec fn bookmark_order(self) -> spec_fn(BookmarkModel, BookmarkModel) -> bool {
        |a: BookmarkModel, b: BookmarkModel|
            {
                let (col, direction) = effective_sort(
                    self.bookmark_sort_column,
                    self.bookmark_sort_direction,
                );
                directed(bookmark_relation(col, a, b), direction).not_after()
            }
    }

    /// The rows of the watchlist view: what passes the search, sorted by the
    /// chosen column, or in the watchlist's own order where none is chosen.
    pub open spec fn filtered_watchlist(self) -> Seq<(Seq<char>, Option<StockQuoteModel>)> {
        let rows = keep_where(self.raw_watchlist(), self.keeps_watchlist_row());
        match self.watchlist_sort_column {
            Some(col) => stable_sort(rows, self.watchlist_order(col)),
            None => rows,
        }
    }

    /// The rows of the portfolio view: what passes the search, sorted by the
    /// chosen column, or in the portfolio's own order where none is chosen.
    pub open spec fn filtered_portfolio(self) -> Seq<(usize, HoldingModel)> {
        let rows = keep_where(self.raw_portfolio(), self.keeps_portfolio_row());
        match self.portfolio_sort_column {
            Some(col) => stable_sort(rows, self.portfolio_order(col)),
            None => rows,
        }
    }

    /// The rows of the news feed: what passes the search, sorted.
    pub open spec fn filtered_news(self) -> Seq<NewsItemModel> {
        stable_sort(keep_where(self.news_items, self.keeps_news_row()), self.news_order())
    }

    /// The rows of the bookmark list: what passes the search, sorted.
    pub open spec fn filtered_bookmarks(self) -> Seq<BookmarkModel> {
        stable_sort(
            keep_where(self.config.bookmarks, self.keeps_bookmark_row()),
            self.bookmark_order(),
        )
    }

    /// The symbol of the selected watchlist row, if the selection points at
    /// a row.
    pub open spec fn selected_watchlist_symbol(self) -> Option<Seq<char>> {
        if self.selected_index < self.filtered_watchlist().len() {
            Some(self.filtered_watchlist()[self.selected_index as int].0)
        } else {
            None
        }
    }

    /// The symbol of the selected portfolio row, if the selection points at
    /// a row.
    pub open spec fn selected_portfolio_symbol(self) -> Option<Seq<char>> {
        if self.portfolio_selected < self.filtered_portfolio().len() {
            Some(self.filtered_portfolio()[self.portfolio_selected as int].1.symbol)
        } else {
            None
        }
    }
}

impl App {
    /// Puts every list back at its top.
    pub(crate) fn reset_lists(&mut self)
        ensures
            final(self)@ == old(self)@.all_at_top(),
    {
        proof {
            reveal(App::model);
        }
        self.selected_index = 0;
        self.portfolio_selected = 0;
        self.news_selected = 0;
        self.bookmark_selected = 0;
        self.watchlist_table_state.offset = 0;
        self.portfolio_table_state.offset = 0;
        self.news_table_state.offset = 0;
        self.bookmark_table_state.offset = 0;
    }

    /// Opens the search field, empty.
    pub fn start_search(&mut self)
        ensures
            final(self)@ == (AppModel {
                input_mode: InputMode::Search,
                input_buffer: Seq::empty(),
                ..old(self)@
            }),
    {
        proof {
            reveal(App::model);
        }
        self.input_mode = InputMode::Search;
        self.input_buffer.clear();
    }

    /// Takes what was typed as the search text, trimmed and in upper case,
    /// and puts every list back at its top; an empty field clears the
    /// search. Returns to normal mode.
    pub fn confirm_search(&mut self)
        ensures
            old(self)@.input_buffer.len() > 0 ==> final(self)@ == (AppModel {
                search_query: uppercase_of(trimmed(old(self)@.input_buffer)),
                search_active: true,
                input_mode: InputMode::Normal,
                input_buffer: Seq::empty(),
                ..old(self)@
            }).all_at_top(),
            old(self)@.input_buffer.len() == 0 ==> final(self)@ == (AppModel {
                input_mode: InputMode::Normal,
                input_buffer: Seq::empty(),
                ..old(self)@
            }).without_filter(),
    {
        proof {
            reveal(App::model);
        }
        if !self.input_buffer.as_str().is_empty() {
            let typed = trim(self.input_buffer.as_str());
            self.search_query = typed.as_str().to_uppercase();
            self.search_active = true;
            self.reset_lists();
        } else {
            self.clear_filter();
        }
        self.input_mode = InputMode::Normal;
        self.input_buffer.clear();
    }

    /// Leaves the search field and clears the search.
    pub fn cancel_search(&mut self)
        ensures
            final(self)@ == (AppModel {
                input_mode: InputMode::Normal,
                input_buffer: Seq::empty(),
                ..old(self)@
            }).without_filter(),
    {
        proof {
            reveal(App::model);
        }
        self.clear_filter();
        self.input_mode = InputMode::Normal;
        self.input_buffer.clear();
    }

    /// Clears the search and puts every list back at its top.
    pub fn clear_filter(&mut self)
        ensures
            final(self)@ == old(self)@.without_filter(),
    {
        proof {
            reveal(App::model);
        }
        self.search_query.clear();
        self.search_active = false;
        self.reset_lists();
    }

    /// The active watchlist, each symbol with its quote where one is
    /// loaded.
    pub fn get_raw_watchlist(&self) -> (r: Vec<(&String, Option<&StockQuote>)>)
        requires
            self@.config.active_watchlist < self@.config.watchlists.len(),
        ensures
            r.deep_view() == self@.raw_watchlist(),
    {
        proof {
            reveal(App::model);
        }
        let symbols = &self.config.watchlists[self.config.active_watchlist].symbols;
        let mut r: Vec<(&String, Option<&StockQuote>)> = Vec::new();
        let mut i: usize = 0;
        while i < symbols.len()
            invariant
                i <= symbols.len(),
                symbols.deep_view() == self@.config.current_watchlist().symbols,
                r.deep_view() == self@.raw_watchlist().take(i as int),
            decreases symbols.len() - i,
        {
            proof {
                reveal(App::model);
            }
            let ghost before = r.deep_view();
            let quote = self.quotes.get(symbols[i].as_str());
            r.push((&symbols[i], quote));
            assert(r.deep_view() =~= before.push((symbols[i as int]@, quote.deep_view())));
            assert(r.deep_view() =~= self@.raw_watchlist().take(i + 1));
            i += 1;
        }
        assert(self@.raw_watchlist().take(symbols.len() as int) =~= self@.raw_watchlist());
        r
    }

    /// The rows of the watchlist view.
    pub fn get_filtered_watchlist(&self) -> (r: Vec<(&String, Option<&StockQuote>)>)
        requires
            self@.config.active_watchlist < self@.config.watchlists.len(),
        ensures
            r.deep_view() == self@.filtered_watchlist(),
    {
        proof {
            reveal(App::model);
        }
        let mut items = self.get_raw_watchlist();
        let filter = SearchFilter { active: self.search_active, query: self.search_query.as_str() };
        filter_rows(&mut items, &filter);
        assert(test_of::<(&String, Option<&StockQuote>), SearchFilter>(&filter)
            =~= self@.keeps_watchlist_row());
        if let Some(col) = self.watchlist_sort_column {
            let order = WatchlistOrder { col, direction: self.watchlist_sort_direction };
            sort_rows(&mut items, &order);
            assert(order_of::<(&String, Option<&StockQuote>), WatchlistOrder>(&order)
                =~= self@.watchlist_order(col));
        }
        items
    }

    /// The holdings of the active portfolio, each with its place in it.
    pub fn get_raw_portfolio(&self) -> (r: Vec<(usize, &Holding)>)
        requires
            self@.config.active_portfolio < self@.config.portfolios.len(),
        ensures
            r.deep_view() == self@.raw_portfolio(),
    {
        proof {
            reveal(App::model);
        }
        let holdings = &self.config.portfolios[self.config.active_portfolio].holdings;
        let mut r: Vec<(usize, &Holding)> = Vec::new();
        let mut i: usize = 0;
        while i < holdings.len()
            invariant
                i <= holdings.len(),
                holdings.deep_view() == self@.config.current_portfolio().holdings,
                r.deep_view() == self@.raw_portfolio().take(i as int),
            decreases holdings.len() - i,
        {
            proof {
                reveal(App::model);
            }
            let ghost before = r.deep_view();
            r.push((i, &holdings[i]));
            assert(r.deep_view() =~= before.push((i, holdings[i as int]@)));
            assert(r.deep_view() =~= self@.raw_portfolio().take(i + 1));
            i += 1;
        }
        assert(self@.raw_portfolio().take(holdings.len() as int) =~= self@.raw_portfolio());
        r
    }

    /// The rows of the portfolio view.
    pub fn get_filtered_portfolio(&self) -> (r: Vec<(usize, &Holding)>)
        requires
            self@.config.active_portfolio < self@.config.portfolios.len(),
        ensures
            r.deep_view() == self@.filtered_portfolio(),
    {
        proof {
            reveal(App::model);
        }
        let mut items = self.get_raw_portfolio();
        let filter = SearchFilter { active: self.search_active, query: self.search_query.as_str() };
        filter_rows(&mut items, &filter);
        assert(test_of::<(usize, &Holding), SearchFilter>(&filter) =~= self@.keeps_portfolio_row());
        if let Some(col) = self.portfolio_sort_column {
            let order = PortfolioOrder {
                col,
                direction: self.portfolio_sort_direction,
                quotes: &self.quotes,
            };
            sort_rows(&mut items, &order);
            assert(order_of::<(usize, &Holding), PortfolioOrder>(&order) =~= self@.portfolio_order(
                col,
            ));
        }
        items
    }

    /// The symbol of the selected watchlist row, if the selection points at
    /// a row.
    pub fn selected_watchlist_symbol(&self) -> (r: Option<String>)
        requires
            self@.config.active_watchlist < self@.config.watchlists.len(),
        ensures
            r.deep_view() == self@.selected_watchlist_symbol(),
    {
        proof {
            reveal(App::model);
        }
        let rows = self.get_filtered_watchlist();
        if self.selected_index < rows.len() {
            Some(rows[self.selected_index].0.clone())
        } else {
            None
        }
    }

    /// The symbol of the selected portfolio row, if the selection points at
    /// a row.
    pub fn selected_portfolio_symbol(&self) -> (r: Option<String>)
        requires
            self@.config.active_portfolio < self@.config.portfolios.len(),
        ensures
            r.deep_view() == self@.selected_portfolio_symbol(),
    {
        proof {
            reveal(App::model);
        }
        let rows = self.get_filtered_portfolio();
        if self.portfolio_selected < rows.len() {
            Some(rows[self.portfolio_selected].1.symbol.clone())
        } else {
            None
        }
    }

    /// The rows of the news feed.
    pub fn get_filtered_news(&self) -> (r: Vec<&NewsItem>)
        ensures
            r.deep_view() == self@.filtered_news(),
    {
        proof {
            reveal(App::model);
        }
        let mut items = row_refs(&self.news_items);
        let filter = SearchFilter { active: self.search_active, query: self.search_query.as_str() };
        filter_rows(&mut items, &filter);
        assert(test_of::<&NewsItem, SearchFilter>(&filter) =~= self@.keeps_news_row());
        let order = NewsOrder { col: self.news_sort_column, direction: self.news_sort_direction };
        sort_rows(&mut items, &order);
        assert(order_of::<&NewsItem, NewsOrder>(&order) =~= self@.news_order());
        items
    }

    /// The rows of the bookmark list.
    pub fn get_filtered_bookmarks(&self) -> (r: Vec<&Bookmark>)
        ensures
            r.deep_view() == self@.filtered_bookmarks(),
    {
        proof {
            reveal(App::model);
        }
        let mut items = row_refs(&self.config.bookmarks);
        let filter = SearchFilter { active: self.search_active, query: self.search_query.as_str() };
        filter_rows(&mut items, &filter);
        assert(test_of::<&Bookmark, SearchFilter>(&filter) =~= self@.keeps_bookmark_row());
        let order = BookmarkOrder {
            col: self.bookmark_sort_column,
            direction: self.bookmark_sort_direction,
        };
        sort_rows(&mut items, &order);
        assert(order_of::<&Bookmark, BookmarkOrder>(&order) =~= self@.bookmark_order());
        items
    }
}

} // verus!
