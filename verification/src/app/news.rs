//! The news feed and the detail view of a stock.

use super::ticker::{contains_word, title_contains_ticker};
use super::{App, AppModel, InputMode};

use crate::api::{ChartData, NewsItem, NewsItemModel};
use crate::rows::keep_where;
use crate::text::{join2, uppercase_of};
use vstd::prelude::*;

verus! {

/// Seconds in a day.
pub const DAY_SECONDS: i64 = 86_400;

/// How many headlines the detail view of a stock shows at most.
pub const DETAIL_NEWS_LIMIT: usize = 8;

/// Whether a news item came out within the day before `now` and names the
/// ticker.
pub open spec fn is_recent_news_of(item: NewsItemModel, ticker: Seq<char>, now: i64) -> bool {
    item.published_at >= now - DAY_SECONDS && contains_word(uppercase_of(item.title), ticker)
}

/// The first headlines that name the ticker, at most eight.
pub open spec fn detail_news_of(items: Seq<NewsItemModel>, ticker: Seq<char>) -> Seq<
    NewsItemModel,
> {
    let named = keep_where(
        items,
        |item: NewsItemModel| contains_word(uppercase_of(item.title), ticker),
    );
    if named.len() > DETAIL_NEWS_LIMIT {
        named.take(DETAIL_NEWS_LIMIT as int)
    } else {
        named
    }
}

impl AppModel {
    /// Whether a news item of the last day names the symbol.
    pub open spec fn has_recent_news(self, symbol: Seq<char>, now: i64) -> bool {
        exists|i: int|
            0 <= i < self.news_items.len() && is_recent_news_of(
                #[trigger] self.news_items[i],
                uppercase_of(symbol),
                now,
            )
    }

    /// The session with the detail view of a symbol opening: nothing shown
    /// yet, chart and headlines loading.
    pub open spec fn begin_detail(self, symbol: Seq<char>) -> AppModel {
        AppModel {
            detail_symbol: Some(symbol),
            detail_chart: None,
            detail_news: None,
            chart_loading: true,
            news_loading: true,
            input_mode: InputMode::StockDetail,
            ..self
        }
    }
}

/// The first headlines among `items` that name the ticker, at most eight.
pub fn detail_news(items: &Vec<NewsItem>, ticker: &str) -> (r: Vec<NewsItem>)
    ensures
        r.deep_view() == detail_news_of(items.deep_view(), ticker@),
{
    let ghost pred = |item: NewsItemModel| contains_word(uppercase_of(item.title), ticker@);
    let mut r: Vec<NewsItem> = Vec::new();
    let mut i: usize = 0;
    while i < items.len() && r.len() < DETAIL_NEWS_LIMIT
        invariant
            i <= items.len(),
            r.len() <= DETAIL_NEWS_LIMIT,
            pred == (|item: NewsItemModel| contains_word(uppercase_of(item.title), ticker@)),
            r.deep_view() == keep_where(items.deep_view().take(i as int), pred),
        decreases items.len() - i,
    {
        proof {
            assert(items.deep_view().take(i + 1).drop_last() =~= items.deep_view().take(i as int));
        }
        if title_contains_ticker(items[i].title.as_str(), ticker) {
            let ghost before = r.deep_view();
            r.push(items[i].duplicate());
            assert(r.deep_view() =~= before.push(items[i as int]@));
        }
        i += 1;
    }
    proof {
        let all = items.deep_view();
        let named = keep_where(all, pred);
        if i == items.len() {
            assert(all.take(i as int) =~= all);
        } else {
            crate::rows::lemma_keep_where_prefix(all, pred, i as int);
            assert(r.deep_view() =~= named.take(DETAIL_NEWS_LIMIT as int));
        }
    }
    r
}

/// Whether one of the items came out within the day before `now` and names
/// the ticker.
pub fn any_recent_news(items: &Vec<NewsItem>, ticker: &str, now: i64) -> (r: bool)
    ensures
        r == exists|i: int|
            0 <= i < items.len() && is_recent_news_of(
                #[trigger] items.deep_view()[i],
                ticker@,
                now,
            ),
{
    let mut i: usize = 0;
    while i < items.len()
        invariant
            i <= items.len(),
            forall|k: int|
                0 <= k < i ==> !is_recent_news_of(#[trigger] items.deep_view()[k], ticker@, now),
        decreases items.len() - i,
    {
        let item = &items[i];
        let recent = now < i64::MIN + DAY_SECONDS || item.published_at >= now - DAY_SECONDS;
        if recent && title_contains_ticker(item.title.as_str(), ticker) {
            assert(is_recent_news_of(items.deep_view()[i as int], ticker@, now));
            return true;
        }
        i += 1;
    }
    false
}

impl App {
    /// Whether a news item that came out within the day before `now`
    /// (seconds since the epoch) names the symbol.
    pub fn has_recent_news_at(&self, symbol: &str, now: i64) -> (r: bool)
        ensures
            r == self@.has_recent_news(symbol@, now),
    {
        proof {
            reveal(App::model);
        }
        let ticker = symbol.to_uppercase();
        any_recent_news(&self.news_items, ticker.as_str(), now)
    }

    /// Whether a news item of the last day, by the system clock, names the
    /// symbol.
    pub fn has_recent_news(&self, symbol: &str) -> (r: bool)
        ensures
            exists|now: i64| r == self@.has_recent_news(symbol@, now),
    {
        let now = crate::clock::utc_timestamp();
        self.has_recent_news_at(symbol, now)
    }

    /// The feeds to fetch, with the loading flag of the news set.
    pub fn prepare_news_refresh(&mut self) -> (urls: Vec<String>)
        ensures
            urls.deep_view() == old(self)@.config.news_sources,
            final(self)@ == (AppModel { rss_loading: true, ..old(self)@ }),
    {
        proof {
            reveal(App::model);
        }
        self.rss_loading = true;
        let source = &self.config.news_sources;
        let mut urls: Vec<String> = Vec::new();
        let mut i: usize = 0;
        while i < source.len()
            invariant
                i <= source.len(),
                urls.deep_view() == source.deep_view().take(i as int),
            decreases source.len() - i,
        {
            let ghost before = urls.deep_view();
            urls.push(source[i].clone());
            assert(urls.deep_view() =~= before.push(source[i as int]@));
            assert(urls.deep_view() =~= source.deep_view().take(i + 1));
            i += 1;
        }
        assert(source.deep_view().take(source.len() as int) =~= source.deep_view());
        urls
    }

    /// Takes in the outcome of a news fetch that ended at `now`
    /// (milliseconds of the caller's clock): the fetched items replace the
    /// feed and the status line clears; a failure leaves the feed as it was
    /// and shows as "News error: " and the reason. Either way the loading
    /// flag clears.
    pub fn execute_news_refresh(&mut self, outcome: Result<Vec<NewsItem>, String>, now: u64)
        ensures
            final(self)@ == (match outcome {
                Ok(items) => AppModel {
                    news_items: items.deep_view(),
                    news_last_refresh: Some(now),
                    status_message: None,
                    rss_loading: false,
                    ..old(self)@
                },
                Err(reason) => AppModel {
                    status_message: Some("News error: "@ + reason@),
                    rss_loading: false,
                    ..old(self)@
                },
            }),
    {
        proof {
            reveal(App::model);
        }
        match outcome {
            Ok(items) => {
                self.news_items = items;
                self.news_last_refresh = Some(now);
                self.status_message = None;
            },
            Err(reason) => {
                self.status_message = Some(join2("News error: ", reason.as_str()));
            },
        }
        self.rss_loading = false;
    }

    /// Shows the news detail, from its top.
    fn show_news_detail(&mut self)
        ensures
            final(self)@ == (AppModel {
                input_mode: InputMode::NewsDetail,
                news_detail_scroll: 0,
                ..old(self)@
            }),
    {
        proof {
            reveal(App::model);
        }
        self.input_mode = InputMode::NewsDetail;
        self.news_detail_scroll = 0;
    }

    /// Number of rows of the feed, and its selection.
    fn news_position(&self) -> (r: (usize, usize))
        ensures
            r.0 == self@.filtered_news().len(),
            r.1 == self@.news_selected,
    {
        let len = self.get_filtered_news().len();
        proof {
            reveal(App::model);
        }
        (len, self.news_selected)
    }

    /// Opens the detail of the selected news item, if the selection points
    /// at one.
    pub fn open_news_detail(&mut self)
        ensures
            final(self)@ == (if old(self)@.news_selected < old(self)@.filtered_news().len() {
                AppModel {
                    input_mode: InputMode::NewsDetail,
                    news_detail_scroll: 0,
                    ..old(self)@
                }
            } else {
                old(self)@
            }),
    {
        let (len, selected) = self.news_position();
        if selected < len {
            self.show_news_detail();
        }
    }

    /// Opens the detail view of a symbol, with nothing loaded yet. Returns
    /// whether the news have to be fetched before headlines can be shown.
    pub fn begin_detail(&mut self, symbol: &str) -> (fetch_news: bool)
        ensures
            final(self)@ == old(self)@.begin_detail(symbol@),
            fetch_news == (old(self)@.news_items.len() == 0),
    {
        proof {
            reveal(App::model);
        }
        self.detail_symbol = Some(String::from_str(symbol));
        self.detail_chart = None;
        self.detail_news = None;
        self.chart_loading = true;
        self.news_loading = true;
        self.input_mode = InputMode::StockDetail;
        self.news_items.is_empty()
    }

    /// Opens the detail view of the selected watchlist row. Returns the
    /// symbol whose chart is to be fetched, and whether the news have to be
    /// fetched first; `None` where no row is selected.
    pub fn show_stock_detail(&mut self) -> (r: Option<(String, bool)>)
        requires
            old(self).wf(),
        ensures
            match old(self)@.selected_watchlist_symbol() {
                Some(symbol) => final(self)@ == old(self)@.begin_detail(symbol) && r.deep_view()
                    == Some((symbol, old(self)@.news_items.len() == 0)),
                None => final(self)@ == old(self)@ && r.is_none(),
            },
    {
        match self.selected_watchlist_symbol() {
            Some(symbol) => {
                let fetch_news = self.begin_detail(symbol.as_str());
                Some((symbol, fetch_news))
            },
            None => None,
        }
    }

    /// Opens the detail view of the selected portfolio row. Returns the
    /// symbol whose chart is to be fetched, and whether the news have to be
    /// fetched first; `None` where no row is selected.
    pub fn show_portfolio_detail(&mut self) -> (r: Option<(String, bool)>)
        requires
            old(self).wf(),
        ensures
            match old(self)@.selected_portfolio_symbol() {
                Some(symbol) => final(self)@ == old(self)@.begin_detail(symbol) && r.deep_view()
                    == Some((symbol, old(self)@.news_items.len() == 0)),
                None => final(self)@ == old(self)@ && r.is_none(),
            },
    {
        match self.selected_portfolio_symbol() {
            Some(symbol) => {
                let fetch_news = self.begin_detail(symbol.as_str());
                Some((symbol, fetch_news))
            },
            None => None,
        }
    }

    /// The first headlines of the feed that name the symbol, at most eight.
    pub fn get_detail_news(&self, symbol: &str) -> (r: Vec<NewsItem>)
        ensures
            r.deep_view() == detail_news_of(self@.news_items, uppercase_of(symbol@)),
    {
        proof {
            reveal(App::model);
        }
        let ticker = symbol.to_uppercase();
        detail_news(&self.news_items, ticker.as_str())
    }

    /// Shows in the detail view the headlines that name its symbol; the
    /// headlines are no longer loading.
    pub fn show_detail_news(&mut self)
        ensures
            final(self)@ == (AppModel {
                detail_news: match old(self)@.detail_symbol {
                    Some(symbol) => Some(
                        detail_news_of(old(self)@.news_items, uppercase_of(symbol)),
                    ),
                    None => old(self)@.detail_news,
                },
                news_loading: false,
                ..old(self)@
            }),
    {
        proof {
            reveal(App::model);
        }
        if let Some(symbol) = &self.detail_symbol {
            let ticker = symbol.as_str().to_uppercase();
            self.detail_news = Some(detail_news(&self.news_items, ticker.as_str()));
        }
        self.news_loading = false;
    }

    /// Takes in the outcome of the chart fetch of the detail view: a chart
    /// is shown, a failure leaves the view without one. Either way the
    /// chart is no longer loading.
    pub fn finish_detail_chart(&mut self, chart: Option<ChartData>)
        ensures
            final(self)@ == (AppModel {
                detail_chart: match chart {
                    Some(c) => Some(c@),
                    None => old(self)@.detail_chart,
                },
                chart_loading: false,
                ..old(self)@
            }),
    {
        proof {
            reveal(App::model);
        }
        if let Some(c) = chart {
            self.detail_chart = Some(c);
        }
        self.chart_loading = false;
    }
}

} // verus!
