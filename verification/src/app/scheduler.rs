//! The refresh scheduler: when quotes and news are due. The caller owns
//! the clock and the network; it asks here what to fetch, fetches, and hands
//! the outcome to `execute_refresh` or `execute_news_refresh`.

use super::{App, AppModel, ViewMode};
use vstd::prelude::*;

verus! {

/// How long fetched news stay fresh, in milliseconds.
pub const NEWS_REFRESH_INTERVAL_MS: u64 = 300_000;

/// How long the caller waits for a key before it looks at the timers
/// again, in milliseconds.
pub const POLL_TIMEOUT_MS: u64 = 100;

/// The time from `since` to `now`; none where the clock went back.
pub open spec fn elapsed(now: u64, since: u64) -> u64 {
    if now >= since {
        (now - since) as u64
    } else {
        0
    }
}

/// What the caller is to do in one turn of its loop before it draws and
/// polls for a key.
pub enum Work {
    /// Fetch quotes for these symbols and hand the outcome to
    /// `execute_refresh`.
    FetchQuotes(Vec<String>),
    /// Fetch these feeds and hand the outcome to `execute_news_refresh`.
    FetchNews(Vec<String>),
    /// Nothing is due.
    Poll,
}

/// The mathematical model of [`Work`].
pub enum WorkModel {
    FetchQuotes(Seq<Seq<char>>),
    FetchNews(Seq<Seq<char>>),
    Poll,
}

impl DeepView for Work {
    type V = WorkModel;

    open spec fn deep_view(&self) -> WorkModel {
        match self {
            Work::FetchQuotes(symbols) => WorkModel::FetchQuotes(symbols.deep_view()),
            Work::FetchNews(urls) => WorkModel::FetchNews(urls.deep_view()),
            Work::Poll => WorkModel::Poll,
        }
    }
}

impl AppModel {
    /// The refresh interval of the quotes in milliseconds.
    pub open spec fn quote_interval_ms(self) -> int {
        self.config.refresh_interval_secs * 1000
    }

    /// Whether quotes are due at `now`: the view shows quotes, no quote
    /// fetch is under way, and the refresh interval has passed since the
    /// last fetch at `last` (or there was none). Times are in milliseconds.
    pub open spec fn quotes_due(self, now: u64, last: Option<u64>) -> bool {
        &&& self.view_mode != ViewMode::News
        &&& !self.loading
        &&& match last {
            Some(t) => elapsed(now, t) >= self.quote_interval_ms(),
            None => true,
        }
    }

    /// Whether the news are due at `now`: the news view is shown, no news
    /// fetch is under way, and the news are older than five minutes or were
    /// never fetched.
    pub open spec fn news_due(self, now: u64) -> bool {
        &&& self.view_mode == ViewMode::News
        &&& !self.rss_loading
        &&& match self.news_last_refresh {
            Some(t) => elapsed(now, t) >= NEWS_REFRESH_INTERVAL_MS,
            None => true,
        }
    }

    /// One turn of the scheduler at `now`, the quotes last fetched at
    /// `last`: the session afterwards and the work for the caller. A fetch
    /// that is due is marked as under way before the caller starts it.
    pub open spec fn begin_tick(self, now: u64, last: Option<u64>) -> (AppModel, WorkModel) {
        if self.quotes_due(now, last) {
            (
                AppModel { loading: true, ..self },
                WorkModel::FetchQuotes(self.refresh_symbols().unwrap()),
            )
        } else if self.news_due(now) {
            (AppModel { rss_loading: true, ..self }, WorkModel::FetchNews(self.config.news_sources))
        } else {
            (self, WorkModel::Poll)
        }
    }
}

/// The time from `since` to `now`; none where the clock went back.
pub fn time_since(now: u64, since: u64) -> (r: u64)
    ensures
        r == elapsed(now, since),
{
    if now >= since {
        now - since
    } else {
        0
    }
}

impl App {
    /// Whether quotes are due at `now`, the quotes last fetched at `last`
    /// (milliseconds of the caller's clock).
    pub fn quotes_due(&self, now: u64, last: Option<u64>) -> (r: bool)
        ensures
            r == self@.quotes_due(now, last),
    {
        proof {
            reveal(App::model);
        }
        if self.view_mode == ViewMode::News || self.loading {
            return false;
        }
        match last {
            Some(t) => {
                let interval: u128 = self.config.refresh_interval_secs as u128 * 1000;
                time_since(now, t) as u128 >= interval
            },
            None => true,
        }
    }

    /// Whether the news are due at `now` (milliseconds of the caller's
    /// clock).
    pub fn news_due(&self, now: u64) -> (r: bool)
        ensures
            r == self@.news_due(now),
    {
        proof {
            reveal(App::model);
        }
        if self.view_mode != ViewMode::News || self.rss_loading {
            return false;
        }
        match self.news_last_refresh {
            Some(t) => time_since(now, t) >= NEWS_REFRESH_INTERVAL_MS,
            None => true,
        }
    }

    /// One turn of the scheduler at `now`, the quotes last fetched at
    /// `last` (milliseconds of the caller's clock): says what to fetch, if
    /// anything, and marks that fetch as under way.
    pub fn begin_tick(&mut self, now: u64, last: Option<u64>) -> (work: Work)
        requires
            old(self).wf(),
        ensures
            (final(self)@, work.deep_view()) == old(self)@.begin_tick(now, last),
            final(self).wf(),
    {
        if self.quotes_due(now, last) {
            match self.prepare_refresh() {
                Some(symbols) => Work::FetchQuotes(symbols),
                None => Work::Poll,
            }
        } else if self.news_due(now) {
            Work::FetchNews(self.prepare_news_refresh())
        } else {
            Work::Poll
        }
    }
}

/// While a fetch of one kind is under way, no second one of that kind is
/// due.
pub proof fn lemma_no_overlapping_refresh(session: AppModel, now: u64, last: Option<u64>)
    ensures
        session.loading ==> !session.quotes_due(now, last),
        session.rss_loading ==> !session.news_due(now),
        !(session.quotes_due(now, last) && session.news_due(now)),
{
}

} // verus!
