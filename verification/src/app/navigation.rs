//! Moving around: selection, sorting, switching views, refreshing quotes.

use super::keys::{
    BOOKMARK_SORTABLE_COLUMNS, NEWS_SORTABLE_COLUMNS, PORTFOLIO_SORTABLE_COLUMNS,
    WATCHLIST_SORTABLE_COLUMNS,
};
use super::{
    cycle_column, next_sort_column, scroll_to, scrolled, ActiveList, App, AppModel, ExportFormat,
    ExportScope, InputMode, NewsTab, SortDirection, TableState, ViewMode,
};
use crate::api::StockQuote;
use crate::config::holdings::symbols_of;
use crate::config::{AlertType, Config};
use crate::quotes::{quote_of, QuoteCache};
use crate::rows::{find_row, RowFilter};
use crate::config::TextIs;
use vstd::prelude::*;

verus! {

/// The symbol of the market index, which every quote refresh asks for.
pub open spec fn index_symbol() -> Seq<char> {
    "^JKSE"@
}

/// The symbols with the market index added at the end, unless it is among
/// them.
pub open spec fn with_index_symbol(symbols: Seq<Seq<char>>) -> Seq<Seq<char>> {
    if symbols.contains(index_symbol()) {
        symbols
    } else {
        symbols.push(index_symbol())
    }
}

/// The selection after a move up: one row up, unless it is at the top.
pub open spec fn moved_up(selected: usize) -> usize {
    if selected > 0 {
        (selected - 1) as usize
    } else {
        selected
    }
}

/// The selection after a move down in a list of `len` rows: one row down,
/// unless it is at the last row or beyond.
pub open spec fn moved_down(selected: usize, len: nat) -> usize {
    if len > 0 && selected < len - 1 {
        (selected + 1) as usize
    } else {
        selected
    }
}

/// Whether a selection points at a row of a list of `len` rows, or at 0
/// where the list is empty.
pub open spec fn selection_in_range(selected: usize, len: nat) -> bool {
    if len == 0 {
        selected == 0
    } else {
        selected < len
    }
}

/// The selection after the row count fell to `len`: where it was if that is
/// still a row, else the last row, or 0 where no row is left.
pub open spec fn clamped_after_removal(selected: usize, len: nat) -> usize {
    if selected < len {
        selected
    } else if len > 0 {
        (len - 1) as usize
    } else {
        0
    }
}

/// The selection after the row count fell to `len`.
pub fn clamp_selection(selected: usize, len: usize) -> (r: usize)
    ensures
        r == clamped_after_removal(selected, len as nat),
        selection_in_range(r, len as nat),
{
    if selected < len {
        selected
    } else if len > 0 {
        len - 1
    } else {
        0
    }
}

impl AppModel {
    /// Number of rows of a list.
    pub open spec fn row_count(self, list: ActiveList) -> nat {
        match list {
            ActiveList::Watchlist => self.filtered_watchlist().len(),
            ActiveList::Portfolio => self.filtered_portfolio().len(),
            ActiveList::News => self.filtered_news().len(),
            ActiveList::Bookmarks => self.filtered_bookmarks().len(),
        }
    }

    /// The session with the selection of the active list moved to
    /// `selected` and the table scrolled to show it.
    pub open spec fn select_row(self, selected: usize) -> AppModel {
        let list = self.active_list();
        self.with_selection(
            list,
            selected,
            scrolled(self.table_state(list), selected, self.table_viewport_height),
        )
    }

    /// The symbols a quote refresh asks for: those of the view and the
    /// market index; `None` in the news view, which needs no quotes.
    pub open spec fn refresh_symbols(self) -> Option<Seq<Seq<char>>> {
        match self.view_mode {
            ViewMode::Watchlist => Some(
                with_index_symbol(self.config.current_watchlist().symbols),
            ),
            ViewMode::Portfolio => Some(
                with_index_symbol(symbols_of(self.config.current_portfolio().holdings)),
            ),
            ViewMode::News => None,
        }
    }

    /// The view that follows a view.
    pub open spec fn next_view(view: ViewMode) -> ViewMode {
        match view {
            ViewMode::Watchlist => ViewMode::Portfolio,
            ViewMode::Portfolio => ViewMode::News,
            ViewMode::News => ViewMode::Watchlist,
        }
    }

}

impl App {
    /// Whether the record store's active indices point at a watchlist and a
    /// portfolio.
    pub open spec fn wf(&self) -> bool {
        self@.config.wf()
    }

    /// A session on the given record store: watchlist view, normal mode,
    /// nothing loaded, nothing selected.
    pub fn new(config: Config) -> (r: App)
        ensures
            r@ == AppModel::initial(config@),
    {
        proof {
            reveal(App::model);
        }
        let r = App {
            config,
            quotes: QuoteCache::new(),
            selected_index: 0,
            input_mode: InputMode::Normal,
            input_buffer: String::new(),
            status_message: None,
            loading: false,
            detail_symbol: None,
            detail_chart: None,
            detail_news: None,
            chart_loading: false,
            news_loading: false,
            view_mode: ViewMode::Watchlist,
            portfolio_selected: 0,
            search_query: String::new(),
            search_active: false,
            export_format: ExportFormat::Csv,
            export_scope: ExportScope::Watchlist,
            export_menu_selection: 0,
            pending_symbol: None,
            pending_lots: None,
            pending_edit_symbol: None,
            alert_symbol: None,
            alert_list_selected: 0,
            pending_alert_type: AlertType::Above,
            watchlist_sort_column: None,
            watchlist_sort_direction: SortDirection::Ascending,
            portfolio_sort_column: None,
            portfolio_sort_direction: SortDirection::Ascending,
            news_items: Vec::new(),
            news_selected: 0,
            news_last_refresh: None,
            rss_loading: false,
            news_sort_column: None,
            news_sort_direction: SortDirection::Ascending,
            news_detail_scroll: 0,
            watchlist_table_state: TableState { offset: 0, selected: None },
            portfolio_table_state: TableState { offset: 0, selected: None },
            news_table_state: TableState { offset: 0, selected: None },
            table_viewport_height: 0,
            news_tab: NewsTab::Feed,
            bookmark_selected: 0,
            bookmark_sort_column: None,
            bookmark_sort_direction: SortDirection::Ascending,
            bookmark_table_state: TableState { offset: 0, selected: None },
            bookmark_detail_scroll: 0,
            needs_save: false,
        };
        assert(r.news_items.deep_view() =~= Seq::empty());
        r
    }

    /// The list that navigation keys act on.
    pub fn active_list(&self) -> (r: ActiveList)
        ensures
            r == self@.active_list(),
    {
        proof {
            reveal(App::model);
        }
        match self.view_mode {
            ViewMode::Watchlist => ActiveList::Watchlist,
            ViewMode::Portfolio => ActiveList::Portfolio,
            ViewMode::News => match self.news_tab {
                NewsTab::Feed => ActiveList::News,
                NewsTab::Bookmarks => ActiveList::Bookmarks,
            },
        }
    }

    /// Number of rows of the active list.
    pub fn active_row_count(&self) -> (r: usize)
        requires
            self.wf(),
        ensures
            r == self@.row_count(self@.active_list()),
    {
        match self.active_list() {
            ActiveList::Watchlist => self.get_filtered_watchlist().len(),
            ActiveList::Portfolio => self.get_filtered_portfolio().len(),
            ActiveList::News => self.get_filtered_news().len(),
            ActiveList::Bookmarks => self.get_filtered_bookmarks().len(),
        }
    }

    /// The selection of the active list.
    pub fn active_selection(&self) -> (r: usize)
        ensures
            r == self@.selection(self@.active_list()),
    {
        proof {
            reveal(App::model);
        }
        match self.active_list() {
            ActiveList::Watchlist => self.selected_index,
            ActiveList::Portfolio => self.portfolio_selected,
            ActiveList::News => self.news_selected,
            ActiveList::Bookmarks => self.bookmark_selected,
        }
    }

    fn select_watchlist_row(&mut self, selected: usize)
        ensures
            final(self)@ == (AppModel {
                selected_index: selected,
                watchlist_table_state: scrolled(
                    old(self)@.watchlist_table_state,
                    selected,
                    old(self)@.table_viewport_height,
                ),
                ..old(self)@
            }),
    {
        proof {
            reveal(App::model);
        }
        let viewport = self.table_viewport_height;
        self.selected_index = selected;
        scroll_to(&mut self.watchlist_table_state, selected, viewport);
    }

    fn select_portfolio_row(&mut self, selected: usize)
        ensures
            final(self)@ == (AppModel {
                portfolio_selected: selected,
                portfolio_table_state: scrolled(
                    old(self)@.portfolio_table_state,
                    selected,
                    old(self)@.table_viewport_height,
                ),
                ..old(self)@
            }),
    {
        proof {
            reveal(App::model);
        }
        let viewport = self.table_viewport_height;
        self.portfolio_selected = selected;
        scroll_to(&mut self.portfolio_table_state, selected, viewport);
    }

    fn select_news_row(&mut self, selected: usize)
        ensures
            final(self)@ == (AppModel {
                news_selected: selected,
                news_table_state: scrolled(
                    old(self)@.news_table_state,
                    selected,
                    old(self)@.table_viewport_height,
                ),
                ..old(self)@
            }),
    {
        proof {
            reveal(App::model);
        }
        let viewport = self.table_viewport_height;
        self.news_selected = selected;
        scroll_to(&mut self.news_table_state, selected, viewport);
    }

    fn select_bookmark_row(&mut self, selected: usize)
        ensures
            final(self)@ == (AppModel {
                bookmark_selected: selected,
                bookmark_table_state: scrolled(
                    old(self)@.bookmark_table_state,
                    selected,
                    old(self)@.table_viewport_height,
                ),
                ..old(self)@
            }),
    {
        proof {
            reveal(App::model);
        }
        let viewport = self.table_viewport_height;
        self.bookmark_selected = selected;
        scroll_to(&mut self.bookmark_table_state, selected, viewport);
    }

    /// Moves the selection of one list to `selected` and scrolls its table
    /// as little as it takes to show that row.
    fn select_in(&mut self, list: ActiveList, selected: usize)
        ensures
            final(self)@ == old(self)@.with_selection(
                list,
                selected,
                scrolled(old(self)@.table_state(list), selected, old(self)@.table_viewport_height),
            ),
    {
        match list {
            ActiveList::Watchlist => self.select_watchlist_row(selected),
            ActiveList::Portfolio => self.select_portfolio_row(selected),
            ActiveList::News => self.select_news_row(selected),
            ActiveList::Bookmarks => self.select_bookmark_row(selected),
        }
    }

    /// Moves the selection of the active list to `selected` and scrolls the
    /// table as little as it takes to show that row.
    pub(crate) fn select_row(&mut self, selected: usize)
        ensures
            final(self)@ == old(self)@.select_row(selected),
    {
        let list = self.active_list();
        self.select_in(list, selected);
    }

    fn sort_watchlist_by(&mut self, column: Option<usize>, direction: SortDirection)
        ensures
            final(self)@ == (AppModel {
                watchlist_sort_column: column,
                watchlist_sort_direction: direction,
                selected_index: 0,
                watchlist_table_state: TableState {
                    offset: 0,
                    selected: old(self)@.watchlist_table_state.selected,
                },
                ..old(self)@
            }),
    {
        proof {
            reveal(App::model);
        }
        self.watchlist_sort_column = column;
        self.watchlist_sort_direction = direction;
        self.selected_index = 0;
        self.watchlist_table_state.offset = 0;
    }

    fn sort_portfolio_by(&mut self, column: Option<usize>, direction: SortDirection)
        ensures
            final(self)@ == (AppModel {
                portfolio_sort_column: column,
                portfolio_sort_direction: direction,
                portfolio_selected: 0,
                portfolio_table_state: TableState {
                    offset: 0,
                    selected: old(self)@.portfolio_table_state.selected,
                },
                ..old(self)@
            }),
    {
        proof {
            reveal(App::model);
        }
        self.portfolio_sort_column = column;
        self.portfolio_sort_direction = direction;
        self.portfolio_selected = 0;
        self.portfolio_table_state.offset = 0;
    }

    fn sort_news_by(&mut self, column: Option<usize>, direction: SortDirection)
        ensures
            final(self)@ == (AppModel {
                news_sort_column: column,
                news_sort_direction: direction,
                news_selected: 0,
                news_table_state: TableState {
                    offset: 0,
                    selected: old(self)@.news_table_state.selected,
                },
                ..old(self)@
            }),
    {
        proof {
            reveal(App::model);
        }
        self.news_sort_column = column;
        self.news_sort_direction = direction;
        self.news_selected = 0;
        self.news_table_state.offset = 0;
    }

    fn sort_bookmarks_by(&mut self, column: Option<usize>, direction: SortDirection)
        ensures
            final(self)@ == (AppModel {
                bookmark_sort_column: column,
                bookmark_sort_direction: direction,
                bookmark_selected: 0,
                bookmark_table_state: TableState {
                    offset: 0,
                    selected: old(self)@.bookmark_table_state.selected,
                },
                ..old(self)@
            }),
    {
        proof {
            reveal(App::model);
        }
        self.bookmark_sort_column = column;
        self.bookmark_sort_direction = direction;
        self.bookmark_selected = 0;
        self.bookmark_table_state.offset = 0;
    }

    /// Puts one list back at its top and gives it a sort column and
    /// direction.
    fn sort_by(&mut self, list: ActiveList, column: Option<usize>, direction: SortDirection)
        ensures
            final(self)@ == old(self)@.with_sort(list, column, direction).at_top(list),
    {
        match list {
            ActiveList::Watchlist => self.sort_watchlist_by(column, direction),
            ActiveList::Portfolio => self.sort_portfolio_by(column, direction),
            ActiveList::News => self.sort_news_by(column, direction),
            ActiveList::Bookmarks => self.sort_bookmarks_by(column, direction),
        }
    }

    /// The sort column of a list.
    fn sort_column_of(&self, list: ActiveList) -> (r: Option<usize>)
        ensures
            r == self@.sort_column(list),
    {
        proof {
            reveal(App::model);
        }
        match list {
            ActiveList::Watchlist => self.watchlist_sort_column,
            ActiveList::Portfolio => self.portfolio_sort_column,
            ActiveList::News => self.news_sort_column,
            ActiveList::Bookmarks => self.bookmark_sort_column,
        }
    }

    /// The sort direction of a list.
    fn sort_direction_of(&self, list: ActiveList) -> (r: SortDirection)
        ensures
            r == self@.sort_direction(list),
    {
        proof {
            reveal(App::model);
        }
        match list {
            ActiveList::Watchlist => self.watchlist_sort_direction,
            ActiveList::Portfolio => self.portfolio_sort_direction,
            ActiveList::News => self.news_sort_direction,
            ActiveList::Bookmarks => self.bookmark_sort_direction,
        }
    }

    /// Moves the selection of the active list one row up, unless it is at
    /// the top, and scrolls to show it.
    pub fn move_up(&mut self)
        ensures
            final(self)@ == old(self)@.select_row(
                moved_up(old(self)@.selection(old(self)@.active_list())),
            ),
    {
        let selected = self.active_selection();
        let target = if selected > 0 {
            selected - 1
        } else {
            selected
        };
        self.select_row(target);
    }

    /// Moves the selection of the active list one row down, unless it is at
    /// the last row, and scrolls to show it.
    pub fn move_down(&mut self)
        requires
            old(self).wf(),
        ensures
            final(self)@ == old(self)@.select_row(
                moved_down(
                    old(self)@.selection(old(self)@.active_list()),
                    old(self)@.row_count(old(self)@.active_list()),
                ),
            ),
    {
        let len = self.active_row_count();
        let selected = self.active_selection();
        let target = if len > 0 && selected < len - 1 {
            selected + 1
        } else {
            selected
        };
        self.select_row(target);
    }

    /// Sorts the active list by the next column: from no column to the
    /// first, from the last to none. The selection goes back to the top.
    pub fn cycle_sort_column(&mut self)
        ensures
            final(self)@ == old(self)@.with_sort(
                old(self)@.active_list(),
                next_sort_column(
                    old(self)@.sort_column(old(self)@.active_list()),
                    AppModel::sortable_columns(old(self)@.active_list()),
                ),
                old(self)@.sort_direction(old(self)@.active_list()),
            ).at_top(old(self)@.active_list()),
    {
        let list = self.active_list();
        let columns = match list {
            ActiveList::Watchlist => WATCHLIST_SORTABLE_COLUMNS,
            ActiveList::Portfolio => PORTFOLIO_SORTABLE_COLUMNS,
            ActiveList::News => NEWS_SORTABLE_COLUMNS,
            ActiveList::Bookmarks => BOOKMARK_SORTABLE_COLUMNS,
        };
        let column = cycle_column(self.sort_column_of(list), columns);
        let direction = self.sort_direction_of(list);
        self.sort_by(list, column, direction);
    }

    /// Reverses the sort direction of the active list. The selection goes
    /// back to the top.
    pub fn toggle_sort_direction(&mut self)
        ensures
            final(self)@ == old(self)@.with_sort(
                old(self)@.active_list(),
                old(self)@.sort_column(old(self)@.active_list()),
                old(self)@.sort_direction(old(self)@.active_list()).flipped(),
            ).at_top(old(self)@.active_list()),
    {
        let list = self.active_list();
        let column = self.sort_column_of(list);
        let mut direction = self.sort_direction_of(list);
        direction.toggle();
        self.sort_by(list, column, direction);
    }

    /// Leaves a text field: back to normal mode with the field empty.
    pub fn cancel_input(&mut self)
        ensures
            final(self)@ == (AppModel {
                input_mode: InputMode::Normal,
                input_buffer: Seq::empty(),
                ..old(self)@
            }),
    {
        proof {
            reveal(App::model);
        }
        self.input_mode = InputMode::Normal;
        self.input_buffer.clear();
    }

    /// Switches to the next view: watchlist, portfolio, news, and round
    /// again. The search is cleared; the quotes are dropped unless the news
    /// view comes, which shows none.
    pub fn toggle_view(&mut self)
        ensures
            final(self)@ == (AppModel {
                view_mode: AppModel::next_view(old(self)@.view_mode),
                quotes: if AppModel::next_view(old(self)@.view_mode) != ViewMode::News {
                    Map::empty()
                } else {
                    old(self)@.quotes
                },
                ..old(self)@
            }).without_filter(),
    {
        proof {
            reveal(App::model);
        }
        self.view_mode = match self.view_mode {
            ViewMode::Watchlist => ViewMode::Portfolio,
            ViewMode::Portfolio => ViewMode::News,
            ViewMode::News => ViewMode::Watchlist,
        };
        if self.view_mode != ViewMode::News {
            self.quotes.clear();
        }
        self.clear_filter();
    }

    /// Switches between the feed and the bookmarks of the news view.
    pub fn toggle_news_tab(&mut self)
        ensures
            final(self)@ == (AppModel {
                news_tab: match old(self)@.news_tab {
                    NewsTab::Feed => NewsTab::Bookmarks,
                    NewsTab::Bookmarks => NewsTab::Feed,
                },
                ..old(self)@
            }),
    {
        proof {
            reveal(App::model);
        }
        self.news_tab = match self.news_tab {
            NewsTab::Feed => NewsTab::Bookmarks,
            NewsTab::Bookmarks => NewsTab::Feed,
        };
    }

    /// Closes the detail view and forgets what it showed.
    pub fn close_stock_detail(&mut self)
        ensures
            final(self)@ == (AppModel {
                detail_symbol: None,
                detail_chart: None,
                detail_news: None,
                input_mode: InputMode::Normal,
                ..old(self)@
            }),
    {
        proof {
            reveal(App::model);
        }
        self.detail_symbol = None;
        self.detail_chart = None;
        self.detail_news = None;
        self.input_mode = InputMode::Normal;
    }

    /// The quote of the symbol that the detail view shows.
    pub fn get_detail_quote(&self) -> (r: Option<&StockQuote>)
        ensures
            r.deep_view() == match self@.detail_symbol {
                Some(symbol) => quote_of(self@.quotes, symbol),
                None => None,
            },
    {
        proof {
            reveal(App::model);
        }
        match &self.detail_symbol {
            Some(symbol) => self.quotes.get(symbol.as_str()),
            None => None,
        }
    }

    /// The quote of the market index, which is filed under "IHSG".
    pub fn get_ihsg_quote(&self) -> (r: Option<&StockQuote>)
        ensures
            r.deep_view() == quote_of(self@.quotes, "IHSG"@),
    {
        proof {
            reveal(App::model);
        }
        self.quotes.get("IHSG")
    }

    /// Opens the help.
    pub fn show_help(&mut self)
        ensures
            final(self)@ == (AppModel { input_mode: InputMode::Help, ..old(self)@ }),
    {
        proof {
            reveal(App::model);
        }
        self.input_mode = InputMode::Help;
    }

    /// Closes the help.
    pub fn close_help(&mut self)
        ensures
            final(self)@ == (AppModel { input_mode: InputMode::Normal, ..old(self)@ }),
    {
        proof {
            reveal(App::model);
        }
        self.input_mode = InputMode::Normal;
    }

    /// The symbols a quote refresh asks for: those of the view and the
    /// market index; `None` in the news view.
    pub fn refresh_symbols(&self) -> (r: Option<Vec<String>>)
        requires
            self.wf(),
        ensures
            r.deep_view() == self@.refresh_symbols(),
    {
        proof {
            reveal(App::model);
        }
        let mut symbols: Vec<String> = match self.view_mode {
            ViewMode::Watchlist => {
                let source = &self.config.current_watchlist().symbols;
                let mut copy: Vec<String> = Vec::new();
                let mut i: usize = 0;
                while i < source.len()
                    invariant
                        i <= source.len(),
                        copy.deep_view() == source.deep_view().take(i as int),
                    decreases source.len() - i,
                {
                    let ghost before = copy.deep_view();
                    copy.push(source[i].clone());
                    assert(copy.deep_view() =~= before.push(source[i as int]@));
                    assert(copy.deep_view() =~= source.deep_view().take(i + 1));
                    i += 1;
                }
                assert(source.deep_view().take(source.len() as int) =~= source.deep_view());
                copy
            },
            ViewMode::Portfolio => self.config.portfolio_symbols(),
            ViewMode::News => {
                return None;
            },
        };
        let ghost before = symbols.deep_view();
        let index = TextIs { text: "^JKSE" };
        let found = find_row(&symbols, &index);
        proof {
            match found {
                Some(i) => {
                    assert(index.keeps(before[i as int]));
                    assert(before.contains(index_symbol()));
                },
                None => {
                    assert forall|k: int| 0 <= k < before.len() implies before[k]
                        != index_symbol() by {
                        assert(!index.keeps(before[k]));
                    }
                    assert(!before.contains(index_symbol()));
                },
            }
        }
        if found.is_none() {
            symbols.push(String::from_str("^JKSE"));
            assert(symbols.deep_view() =~= before.push(index_symbol()));
        }
        Some(symbols)
    }

    /// The symbols to fetch quotes for, with the loading flag set; `None`,
    /// and nothing set, in the news view.
    pub fn prepare_refresh(&mut self) -> (r: Option<Vec<String>>)
        requires
            old(self).wf(),
        ensures
            r.deep_view() == old(self)@.refresh_symbols(),
            final(self)@ == (AppModel {
                loading: old(self)@.loading || r.is_some(),
                ..old(self)@
            }),
    {
        proof {
            reveal(App::model);
        }
        let symbols = self.refresh_symbols();
        if symbols.is_some() {
            self.loading = true;
        }
        symbols
    }

    /// Takes in the outcome of a quote fetch: the fetched quotes replace the
    /// cache as a whole and the status line clears; a failure leaves the
    /// cache as it was and shows as "Error: " and the reason. Either way the
    /// loading flag clears.
    pub fn execute_refresh(&mut self, outcome: Result<QuoteCache, String>)
        ensures
            final(self)@ == (match outcome {
                Ok(quotes) => AppModel {
                    quotes: quotes@,
                    status_message: None,
                    loading: false,
                    ..old(self)@
                },
                Err(reason) => AppModel {
                    status_message: Some("Error: "@ + reason@),
                    loading: false,
                    ..old(self)@
                },
            }),
    {
        proof {
            reveal(App::model);
        }
        match outcome {
            Ok(quotes) => {
                self.quotes = quotes;
                self.status_message = None;
            },
            Err(reason) => {
                let mut message = String::from_str("Error: ");
                message.append(reason.as_str());
                self.status_message = Some(message);
            },
        }
        self.loading = false;
    }
}

} // verus!
