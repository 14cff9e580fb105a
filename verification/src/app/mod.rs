//! The session model: what is on screen and why.

pub mod alerts;
pub mod bookmarks;
pub mod events;
pub mod export;
pub mod filter;
pub mod keys;
pub mod machine;
pub mod navigation;
pub mod news;
pub mod portfolio;
pub mod scheduler;
pub mod sort;
pub mod ticker;
pub mod watchlist;

pub use ticker::title_contains_ticker;

use crate::api::yahoo::ChartDataModel;
use crate::api::{ChartData, NewsItem, NewsItemModel, StockQuoteModel};
use crate::config::{AlertType, Config, ConfigModel};
use crate::quotes::QuoteCache;
use keys::{
    BOOKMARK_SORTABLE_COLUMNS, NEWS_SORTABLE_COLUMNS, PORTFOLIO_SORTABLE_COLUMNS,
    WATCHLIST_SORTABLE_COLUMNS,
};
use vstd::prelude::*;

verus! {

/// The state that decides which keys are accepted and what they mean.
#[derive(Debug, Clone, Copy, PartialEq, Eq, Structural)]
pub enum InputMode {
    Normal,
    Adding,
    WatchlistAdd,
    WatchlistRename,
    StockDetail,
    PortfolioAddSymbol,
    PortfolioAddLots,
    PortfolioAddPrice,
    Help,
    Search,
    ExportMenu,
    PortfolioChart,
    PortfolioEditLots,
    PortfolioEditPrice,
    NewsDetail,
    PortfolioNew,
    PortfolioRename,
    AlertList,
    AlertAddType,
    AlertAddValue,
    BookmarkDetail,
    BookmarkClearConfirm,
}

/// The top-level screens.
#[derive(Debug, Clone, Copy, PartialEq, Eq, Structural)]
pub enum ViewMode {
    Watchlist,
    Portfolio,
    News,
}

/// The two lists of the news screen.
#[derive(Debug, Clone, Copy, PartialEq, Eq, Structural)]
pub enum NewsTab {
    Feed,
    Bookmarks,
}

/// The file formats of an export.
#[derive(Debug, Clone, Copy, PartialEq, Eq, Structural)]
pub enum ExportFormat {
    Csv,
    Json,
}

impl Default for ExportFormat {
    fn default() -> (r: ExportFormat)
        ensures
            r == ExportFormat::Csv,
    {
        ExportFormat::Csv
    }
}

/// What an export covers.
#[derive(Debug, Clone, Copy, PartialEq, Eq, Structural)]
pub enum ExportScope {
    Watchlist,
    Portfolio,
}

impl Default for ExportScope {
    fn default() -> (r: ExportScope)
        ensures
            r == ExportScope::Watchlist,
    {
        ExportScope::Watchlist
    }
}

/// Direction in which a sorted column is ordered.
#[derive(Debug, Clone, Copy, PartialEq, Eq, Structural)]
pub enum SortDirection {
    Ascending,
    Descending,
}

impl SortDirection {
    /// The opposite direction.
    pub open spec fn flipped(self) -> SortDirection {
        match self {
            SortDirection::Ascending => SortDirection::Descending,
            SortDirection::Descending => SortDirection::Ascending,
        }
    }

    /// The arrow shown beside the sorted column.
    pub open spec fn indicator_text(self) -> Seq<char> {
        match self {
            SortDirection::Ascending => "▲"@,
            SortDirection::Descending => "▼"@,
        }
    }

    /// Switches to the opposite direction.
    pub fn toggle(&mut self)
        ensures
            *final(self) == old(self).flipped(),
    {
        *self = match *self {
            SortDirection::Ascending => SortDirection::Descending,
            SortDirection::Descending => SortDirection::Ascending,
        };
    }

    /// The arrow shown beside the sorted column.
    pub fn indicator(&self) -> (r: &'static str)
        ensures
            r@ == self.indicator_text(),
    {
        match self {
            SortDirection::Ascending => "▲",
            SortDirection::Descending => "▼",
        }
    }
}

/// Toggling the direction twice leaves it as it was.
pub proof fn lemma_toggle_twice(direction: SortDirection)
    ensures
        direction.flipped().flipped() == direction,
{
}

/// Where a table is scrolled to and which row it highlights.
#[derive(Debug, Clone, Copy, PartialEq, Eq, Structural)]
pub struct TableState {
    pub offset: usize,
    pub selected: Option<usize>,
}

impl Default for TableState {
    fn default() -> (r: TableState)
        ensures
            r == (TableState { offset: 0, selected: None }),
    {
        TableState { offset: 0, selected: None }
    }
}

impl TableState {
    /// Index of the first row shown.
    pub fn offset(&self) -> (r: usize)
        ensures
            r == self.offset,
    {
        self.offset
    }

    /// The index of the first row shown, for changing it.
    pub fn offset_mut(&mut self) -> (r: &mut usize)
        ensures
            *r == old(self).offset,
            *final(self) == (TableState { offset: *final(r), selected: old(self).selected }),
    {
        &mut self.offset
    }

    /// The highlighted row.
    pub fn selected(&self) -> (r: Option<usize>)
        ensures
            r == self.selected,
    {
        self.selected
    }

    /// Highlights a row; with `None` the table also scrolls back to the top.
    pub fn select(&mut self, index: Option<usize>)
        ensures
            *final(self) == (TableState {
                offset: if index.is_none() {
                    0
                } else {
                    old(self).offset
                },
                selected: index,
            }),
    {
        self.selected = index;
        if index.is_none() {
            self.offset = 0;
        }
    }
}

/// The offset after the selection moved to `selected`: scrolled as little
/// as it takes to keep the selected row among the `viewport` rows shown.
pub open spec fn scrolled_offset(selected: usize, offset: usize, viewport: usize) -> usize {
    if selected < offset {
        selected
    } else if viewport > 0 && selected - offset >= viewport {
        (selected + 1 - viewport) as usize
    } else {
        offset
    }
}

/// The table state after the selection moved to `selected`.
pub open spec fn scrolled(state: TableState, selected: usize, viewport: usize) -> TableState {
    TableState {
        offset: scrolled_offset(selected, state.offset, viewport),
        selected: Some(selected),
    }
}

/// Highlights `selected` and scrolls as little as it takes to show it.
pub fn scroll_to(state: &mut TableState, selected: usize, viewport: usize)
    ensures
        *final(state) == scrolled(*old(state), selected, viewport),
{
    state.select(Some(selected));
    let offset = state.offset;
    if selected < offset {
        state.offset = selected;
    } else if viewport > 0 && selected - offset >= viewport {
        state.offset = selected - viewport + 1;
    }
}

/// After scrolling, the selected row is among the rows shown.
pub proof fn lemma_scrolled_shows_selection(selected: usize, offset: usize, viewport: usize)
    requires
        viewport > 0,
    ensures
        scrolled_offset(selected, offset, viewport) <= selected < scrolled_offset(
            selected,
            offset,
            viewport,
        ) + viewport,
{
}

/// The sort column after one more press of the cycle key: none, then each
/// column in turn, then none again.
pub open spec fn next_sort_column(column: Option<usize>, columns: usize) -> Option<usize> {
    match column {
        None => Some(0usize),
        Some(i) => if i + 1 >= columns {
            None
        } else {
            Some((i + 1) as usize)
        },
    }
}

/// The sort column after one more press of the cycle key.
pub fn cycle_column(column: Option<usize>, columns: usize) -> (r: Option<usize>)
    ensures
        r == next_sort_column(column, columns),
{
    match column {
        None => Some(0),
        Some(i) => if i >= columns || i + 1 >= columns {
            None
        } else {
            Some(i + 1)
        },
    }
}

/// The sort column after `n` presses of the cycle key.
pub open spec fn cycled(column: Option<usize>, columns: usize, n: nat) -> Option<usize>
    decreases n,
{
    if n == 0 {
        column
    } else {
        next_sort_column(cycled(column, columns, (n - 1) as nat), columns)
    }
}

/// From "no sort", `k` presses lead to column `k - 1` as long as there is
/// one.
pub proof fn lemma_cycled_from_none(columns: usize, k: nat)
    requires
        1 <= k <= columns,
    ensures
        cycled(None, columns, k) == Some((k - 1) as usize),
    decreases k,
{
    if k > 1 {
        lemma_cycled_from_none(columns, (k - 1) as nat);
    } else {
        assert(cycled(None, columns, 0).is_none());
    }
}

/// Cycling through a view with `columns` sortable columns: starting from
/// "no sort", the first `columns` presses each select a column, and press
/// number `columns + 1` leads back to "no sort". So a full cycle passes
/// "no sort" exactly once.
pub proof fn lemma_sort_cycle(columns: usize)
    requires
        columns >= 1,
    ensures
        cycled(None, columns, (columns + 1) as nat).is_none(),
        forall|k: nat| 1 <= k <= columns ==> (#[trigger] cycled(None, columns, k)).is_some(),
{
    lemma_cycled_from_none(columns, columns as nat);
    assert forall|k: nat| 1 <= k <= columns implies (#[trigger] cycled(
        None,
        columns,
        k,
    )).is_some() by {
        lemma_cycled_from_none(columns, k);
    }
}

/// The list that navigation keys act on.
#[derive(Debug, Clone, Copy, PartialEq, Eq, Structural)]
pub enum ActiveList {
    Watchlist,
    Portfolio,
    News,
    Bookmarks,
}

/// The whole session.
pub struct App {
    pub config: Config,
    pub quotes: QuoteCache,
    pub selected_index: usize,
    pub input_mode: InputMode,
    pub input_buffer: String,
    pub status_message: Option<String>,
    pub loading: bool,
    pub detail_symbol: Option<String>,
    pub detail_chart: Option<ChartData>,
    pub detail_news: Option<Vec<NewsItem>>,
    pub chart_loading: bool,
    pub news_loading: bool,
    pub view_mode: ViewMode,
    pub portfolio_selected: usize,
    pub search_query: String,
    pub search_active: bool,
    pub export_format: ExportFormat,
    pub export_scope: ExportScope,
    pub export_menu_selection: usize,
    pub pending_symbol: Option<String>,
    pub pending_lots: Option<u32>,
    pub pending_edit_symbol: Option<String>,
    pub alert_symbol: Option<String>,
    pub alert_list_selected: usize,
    pub pending_alert_type: AlertType,
    pub watchlist_sort_column: Option<usize>,
    pub watchlist_sort_direction: SortDirection,
    pub portfolio_sort_column: Option<usize>,
    pub portfolio_sort_direction: SortDirection,
    pub news_items: Vec<NewsItem>,
    pub news_selected: usize,
    /// When the news were last fetched, in milliseconds of the caller's
    /// monotonic clock; `None` before the first fetch.
    pub news_last_refresh: Option<u64>,
    pub rss_loading: bool,
    pub news_sort_column: Option<usize>,
    pub news_sort_direction: SortDirection,
    pub news_detail_scroll: usize,
    pub watchlist_table_state: TableState,
    pub portfolio_table_state: TableState,
    pub news_table_state: TableState,
    /// Rows that fit the table, as the last draw reported it.
    pub table_viewport_height: usize,
    pub news_tab: NewsTab,
    pub bookmark_selected: usize,
    pub bookmark_sort_column: Option<usize>,
    pub bookmark_sort_direction: SortDirection,
    pub bookmark_table_state: TableState,
    pub bookmark_detail_scroll: usize,
    /// Set by every change of the record store; the caller writes the store
    /// out and clears the flag.
    pub needs_save: bool,
}

/// The mathematical model of [`App`]: texts by their characters, lists by
/// their sequences.
pub struct AppModel {
    pub config: ConfigModel,
    pub quotes: Map<Seq<char>, StockQuoteModel>,
    pub selected_index: usize,
    pub input_mode: InputMode,
    pub input_buffer: Seq<char>,
    pub status_message: Option<Seq<char>>,
    pub loading: bool,
    pub detail_symbol: Option<Seq<char>>,
    pub detail_chart: Option<ChartDataModel>,
    pub detail_news: Option<Seq<NewsItemModel>>,
    pub chart_loading: bool,
    pub news_loading: bool,
    pub view_mode: ViewMode,
    pub portfolio_selected: usize,
    pub search_query: Seq<char>,
    pub search_active: bool,
    pub export_format: ExportFormat,
    pub export_scope: ExportScope,
    pub export_menu_selection: usize,
    pub pending_symbol: Option<Seq<char>>,
    pub pending_lots: Option<u32>,
    pub pending_edit_symbol: Option<Seq<char>>,
    pub alert_symbol: Option<Seq<char>>,
    pub alert_list_selected: usize,
    pub pending_alert_type: AlertType,
    pub watchlist_sort_column: Option<usize>,
    pub watchlist_sort_direction: SortDirection,
    pub portfolio_sort_column: Option<usize>,
    pub portfolio_sort_direction: SortDirection,
    pub news_items: Seq<NewsItemModel>,
    pub news_selected: usize,
    pub news_last_refresh: Option<u64>,
    pub rss_loading: bool,
    pub news_sort_column: Option<usize>,
    pub news_sort_direction: SortDirection,
    pub news_detail_scroll: usize,
    pub watchlist_table_state: TableState,
    pub portfolio_table_state: TableState,
    pub news_table_state: TableState,
    pub table_viewport_height: usize,
    pub news_tab: NewsTab,
    pub bookmark_selected: usize,
    pub bookmark_sort_column: Option<usize>,
    pub bookmark_sort_direction: SortDirection,
    pub bookmark_table_state: TableState,
    pub bookmark_detail_scroll: usize,
    pub needs_save: bool,
}

impl App {
    /// The session as a mathematical value: every text by its characters,
    /// every list by its sequence, the quote cache by its map.
    #[verifier::opaque]
    pub open spec fn model(&self) -> AppModel {
        AppModel {
            config: self.config@,
            quotes: self.quotes@,
            selected_index: self.selected_index,
            input_mode: self.input_mode,
            input_buffer: self.input_buffer@,
            status_message: self.status_message.deep_view(),
            loading: self.loading,
            detail_symbol: self.detail_symbol.deep_view(),
            detail_chart: self.detail_chart.deep_view(),
            detail_news: self.detail_news.deep_view(),
            chart_loading: self.chart_loading,
            news_loading: self.news_loading,
            view_mode: self.view_mode,
            portfolio_selected: self.portfolio_selected,
            search_query: self.search_query@,
            search_active: self.search_active,
            export_format: self.export_format,
            export_scope: self.export_scope,
            export_menu_selection: self.export_menu_selection,
            pending_symbol: self.pending_symbol.deep_view(),
            pending_lots: self.pending_lots,
            pending_edit_symbol: self.pending_edit_symbol.deep_view(),
            alert_symbol: self.alert_symbol.deep_view(),
            alert_list_selected: self.alert_list_selected,
            pending_alert_type: self.pending_alert_type,
            watchlist_sort_column: self.watchlist_sort_column,
            watchlist_sort_direction: self.watchlist_sort_direction,
            portfolio_sort_column: self.portfolio_sort_column,
            portfolio_sort_direction: self.portfolio_sort_direction,
            news_items: self.news_items.deep_view(),
            news_selected: self.news_selected,
            news_last_refresh: self.news_last_refresh,
            rss_loading: self.rss_loading,
            news_sort_column: self.news_sort_column,
            news_sort_direction: self.news_sort_direction,
            news_detail_scroll: self.news_detail_scroll,
            watchlist_table_state: self.watchlist_table_state,
            portfolio_table_state: self.portfolio_table_state,
            news_table_state: self.news_table_state,
            table_viewport_height: self.table_viewport_height,
            news_tab: self.news_tab,
            bookmark_selected: self.bookmark_selected,
            bookmark_sort_column: self.bookmark_sort_column,
            bookmark_sort_direction: self.bookmark_sort_direction,
            bookmark_table_state: self.bookmark_table_state,
            bookmark_detail_scroll: self.bookmark_detail_scroll,
            needs_save: self.needs_save,
        }
    }
}

impl DeepView for App {
    type V = AppModel;

    open spec fn deep_view(&self) -> AppModel {
        self.model()
    }
}

impl View for App {
    type V = AppModel;

    open spec fn view(&self) -> AppModel {
        self.deep_view()
    }
}

impl AppModel {
    /// The session that starts on the given record store.
    pub open spec fn initial(config: ConfigModel) -> AppModel {
        AppModel {
            config,
            quotes: Map::empty(),
            selected_index: 0,
            input_mode: InputMode::Normal,
            input_buffer: Seq::empty(),
            status_message: None,
            loading: false,
            detail_symbol: None,
            detail_chart: None,
            detail_news: None,
            chart_loading: false,
            news_loading: false,
            view_mode: ViewMode::Watchlist,
            portfolio_selected: 0,
            search_query: Seq::empty(),
            search_active: false,
            export_format: ExportFormat::Csv,
            export_scope: ExportScope::Watchlist,
            export_menu_selection: 0,
            pending_symbol: None,
            pending_lots: None,
            pending_edit_symbol: None,
            alert_symbol: None,
            alert_list_selected: 0,
            pending_alert_type: AlertType::Above,
            watchlist_sort_column: None,
            watchlist_sort_direction: SortDirection::Ascending,
            portfolio_sort_column: None,
            portfolio_sort_direction: SortDirection::Ascending,
            news_items: Seq::empty(),
            news_selected: 0,
            news_last_refresh: None,
            rss_loading: false,
            news_sort_column: None,
            news_sort_direction: SortDirection::Ascending,
            news_detail_scroll: 0,
            watchlist_table_state: TableState { offset: 0, selected: None },
            portfolio_table_state: TableState { offset: 0, selected: None },
            news_table_state: TableState { offset: 0, selected: None },
            table_viewport_height: 0,
            news_tab: NewsTab::Feed,
            bookmark_selected: 0,
            bookmark_sort_column: None,
            bookmark_sort_direction: SortDirection::Ascending,
            bookmark_table_state: TableState { offset: 0, selected: None },
            bookmark_detail_scroll: 0,
            needs_save: false,
        }
    }

    /// The list that navigation keys act on.
    pub open spec fn active_list(self) -> ActiveList {
        match self.view_mode {
            ViewMode::Watchlist => ActiveList::Watchlist,
            ViewMode::Portfolio => ActiveList::Portfolio,
            ViewMode::News => match self.news_tab {
                NewsTab::Feed => ActiveList::News,
                NewsTab::Bookmarks => ActiveList::Bookmarks,
            },
        }
    }

    /// The selection index of a list.
    pub open spec fn selection(self, list: ActiveList) -> usize {
        match list {
            ActiveList::Watchlist => self.selected_index,
            ActiveList::Portfolio => self.portfolio_selected,
            ActiveList::News => self.news_selected,
            ActiveList::Bookmarks => self.bookmark_selected,
        }
    }

    /// The table state of a list.
    pub open spec fn table_state(self, list: ActiveList) -> TableState {
        match list {
            ActiveList::Watchlist => self.watchlist_table_state,
            ActiveList::Portfolio => self.portfolio_table_state,
            ActiveList::News => self.news_table_state,
            ActiveList::Bookmarks => self.bookmark_table_state,
        }
    }

    /// The sort column of a list.
    pub open spec fn sort_column(self, list: ActiveList) -> Option<usize> {
        match list {
            ActiveList::Watchlist => self.watchlist_sort_column,
            ActiveList::Portfolio => self.portfolio_sort_column,
            ActiveList::News => self.news_sort_column,
            ActiveList::Bookmarks => self.bookmark_sort_column,
        }
    }

    /// The sort direction of a list.
    pub open spec fn sort_direction(self, list: ActiveList) -> SortDirection {
        match list {
            ActiveList::Watchlist => self.watchlist_sort_direction,
            ActiveList::Portfolio => self.portfolio_sort_direction,
            ActiveList::News => self.news_sort_direction,
            ActiveList::Bookmarks => self.bookmark_sort_direction,
        }
    }

    /// The session with the selection and table state of one list replaced.
    pub open spec fn with_selection(
        self,
        list: ActiveList,
        selected: usize,
        state: TableState,
    ) -> AppModel {
        match list {
            ActiveList::Watchlist => AppModel {
                selected_index: selected,
                watchlist_table_state: state,
                ..self
            },
            ActiveList::Portfolio => AppModel {
                portfolio_selected: selected,
                portfolio_table_state: state,
                ..self
            },
            ActiveList::News => AppModel { news_selected: selected, news_table_state: state, ..self },
            ActiveList::Bookmarks => AppModel {
                bookmark_selected: selected,
                bookmark_table_state: state,
                ..self
            },
        }
    }

    /// The session with the sort column and direction of one list replaced.
    pub open spec fn with_sort(
        self,
        list: ActiveList,
        column: Option<usize>,
        direction: SortDirection,
    ) -> AppModel {
        match list {
            ActiveList::Watchlist => AppModel {
                watchlist_sort_column: column,
                watchlist_sort_direction: direction,
                ..self
            },
            ActiveList::Portfolio => AppModel {
                portfolio_sort_column: column,
                portfolio_sort_direction: direction,
                ..self
            },
            ActiveList::News => AppModel {
                news_sort_column: column,
                news_sort_direction: direction,
                ..self
            },
            ActiveList::Bookmarks => AppModel {
                bookmark_sort_column: column,
                bookmark_sort_direction: direction,
                ..self
            },
        }
    }

    /// The session with the selection of one list back at its top: the first
    /// row selected, the table scrolled to the start. The highlighted row of
    /// the table state stays as the last draw or move left it.
    pub open spec fn at_top(self, list: ActiveList) -> AppModel {
        self.with_selection(
            list,
            0,
            TableState { offset: 0, selected: self.table_state(list).selected },
        )
    }

    /// The session with no filter and every list back at its top.
    pub open spec fn without_filter(self) -> AppModel {
        AppModel { search_query: Seq::empty(), search_active: false, ..self }.all_at_top()
    }

    /// The session with every list back at its top.
    pub open spec fn all_at_top(self) -> AppModel {
        self.at_top(ActiveList::Watchlist).at_top(ActiveList::Portfolio).at_top(
            ActiveList::News,
        ).at_top(ActiveList::Bookmarks)
    }

    /// Number of sortable columns of a list.
    pub open spec fn sortable_columns(list: ActiveList) -> usize {
        match list {
            ActiveList::Watchlist => WATCHLIST_SORTABLE_COLUMNS,
            ActiveList::Portfolio => PORTFOLIO_SORTABLE_COLUMNS,
            ActiveList::News => NEWS_SORTABLE_COLUMNS,
            ActiveList::Bookmarks => BOOKMARK_SORTABLE_COLUMNS,
        }
    }
}

} // verus!
