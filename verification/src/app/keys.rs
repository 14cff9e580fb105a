//! What the rows of each view are sorted by.

use super::SortDirection;
use crate::api::{NewsItem, NewsItemModel, StockQuote, StockQuoteModel};
use crate::config::{Bookmark, BookmarkModel, Holding, HoldingModel};
use crate::quotes::{quote_of, QuoteCache};
use crate::relation::{
    int_relation, lemma_text_relation_reversed, lemma_text_relation_transitive, relate_i128,
    relate_text, relate_u128, text_relation, Relation,
};
use crate::rows::RowOrder;
use vstd::prelude::*;

verus! {

/// The value of one column of one row, as far as sorting goes.
pub enum SortKey {
    Number(int),
    Text(Seq<char>),
    Nothing,
}

/// Whether two keys are of one kind, as the keys of one column are.
pub open spec fn same_kind(a: SortKey, b: SortKey) -> bool {
    match (a, b) {
        (SortKey::Number(_), SortKey::Number(_)) => true,
        (SortKey::Text(_), SortKey::Text(_)) => true,
        (SortKey::Nothing, SortKey::Nothing) => true,
        _ => false,
    }
}

/// How two keys stand to each other: numbers by value, texts character by
/// character; keys of different kinds are not told apart.
pub open spec fn key_relation(a: SortKey, b: SortKey) -> Relation {
    match (a, b) {
        (SortKey::Number(x), SortKey::Number(y)) => int_relation(x, y),
        (SortKey::Text(x), SortKey::Text(y)) => text_relation(x, y),
        _ => Relation::Same,
    }
}

/// A relation as it counts in the given direction.
pub open spec fn directed(relation: Relation, direction: SortDirection) -> Relation {
    match direction {
        SortDirection::Ascending => relation,
        SortDirection::Descending => relation.reversed(),
    }
}

/// Swapping two keys reverses their relation.
pub proof fn lemma_key_relation_reversed(a: SortKey, b: SortKey)
    ensures
        key_relation(b, a) == key_relation(a, b).reversed(),
{
    match (a, b) {
        (SortKey::Text(x), SortKey::Text(y)) => {
            lemma_text_relation_reversed(x, y, 0);
        },
        _ => {},
    }
}

/// "Not after" carries over a key in between, among keys of one kind.
pub proof fn lemma_key_relation_transitive(a: SortKey, b: SortKey, c: SortKey)
    requires
        same_kind(a, b),
        same_kind(b, c),
        key_relation(a, b).not_after(),
        key_relation(b, c).not_after(),
    ensures
        key_relation(a, c).not_after(),
{
    match (a, b, c) {
        (SortKey::Text(x), SortKey::Text(y), SortKey::Text(z)) => {
            lemma_text_relation_transitive(x, y, z, 0);
        },
        _ => {},
    }
}

/// In either direction, "not after" is total and carries over among keys of
/// one kind.
pub proof fn lemma_directed_order(a: SortKey, b: SortKey, c: SortKey, direction: SortDirection)
    requires
        same_kind(a, b),
        same_kind(b, c),
    ensures
        directed(key_relation(a, b), direction).not_after() || directed(
            key_relation(b, a),
            direction,
        ).not_after(),
        directed(key_relation(a, b), direction).not_after() && directed(
            key_relation(b, c),
            direction,
        ).not_after() ==> directed(key_relation(a, c), direction).not_after(),
{
    lemma_key_relation_reversed(a, b);
    lemma_key_relation_reversed(b, c);
    lemma_key_relation_reversed(a, c);
    if key_relation(a, b).not_after() && key_relation(b, c).not_after() {
        lemma_key_relation_transitive(a, b, c);
    }
    if key_relation(c, b).not_after() && key_relation(b, a).not_after() {
        lemma_key_relation_transitive(c, b, a);
    }
}

/// A sort key as the program holds it.
pub enum Key<'a> {
    Signed(i128),
    Unsigned(u128),
    Text(&'a str),
    Nothing,
}

impl<'a> Key<'a> {
    /// The key as a mathematical value.
    pub open spec fn model(&self) -> SortKey {
        match self {
            Key::Signed(v) => SortKey::Number(*v as int),
            Key::Unsigned(v) => SortKey::Number(*v as int),
            Key::Text(t) => SortKey::Text(t@),
            Key::Nothing => SortKey::Nothing,
        }
    }
}

/// How two keys stand to each other.
pub fn relate_keys(a: &Key, b: &Key) -> (r: Relation)
    ensures
        r == key_relation(a.model(), b.model()),
{
    match (a, b) {
        (Key::Signed(x), Key::Signed(y)) => relate_i128(*x, *y),
        (Key::Unsigned(x), Key::Unsigned(y)) => relate_u128(*x, *y),
        (Key::Signed(x), Key::Unsigned(y)) => {
            if *x < 0 {
                Relation::Before
            } else {
                relate_u128(*x as u128, *y)
            }
        },
        (Key::Unsigned(x), Key::Signed(y)) => {
            if *y < 0 {
                Relation::After
            } else {
                relate_u128(*x, *y as u128)
            }
        },
        (Key::Text(x), Key::Text(y)) => relate_text(x, y),
        _ => Relation::Same,
    }
}

/// A relation as it counts in the given direction.
pub fn direct(relation: Relation, direction: SortDirection) -> (r: Relation)
    ensures
        r == directed(relation, direction),
{
    match direction {
        SortDirection::Ascending => relation,
        SortDirection::Descending => relation.reverse(),
    }
}

/// Number of columns of the watchlist that rows can be sorted by.
pub const WATCHLIST_SORTABLE_COLUMNS: usize = 10;

/// Number of columns of the portfolio that rows can be sorted by.
pub const PORTFOLIO_SORTABLE_COLUMNS: usize = 9;

/// Number of columns of the news feed that rows can be sorted by.
pub const NEWS_SORTABLE_COLUMNS: usize = 3;

/// Number of columns of the bookmarks that rows can be sorted by.
pub const BOOKMARK_SORTABLE_COLUMNS: usize = 4;

/// The key of a quote in a watchlist column: symbol, name, price, change,
/// change in percent, open, high, low, volume, traded value.
pub open spec fn quote_key(col: usize, q: StockQuoteModel) -> SortKey {
    if col == 0 {
        SortKey::Text(q.symbol)
    } else if col == 1 {
        SortKey::Text(q.short_name)
    } else if col == 2 {
        SortKey::Number(q.price as int)
    } else if col == 3 {
        SortKey::Number(q.change as int)
    } else if col == 4 {
        SortKey::Number(q.change_percent as int)
    } else if col == 5 {
        SortKey::Number(q.open as int)
    } else if col == 6 {
        SortKey::Number(q.high as int)
    } else if col == 7 {
        SortKey::Number(q.low as int)
    } else if col == 8 {
        SortKey::Number(q.volume as int)
    } else if col == 9 {
        SortKey::Number(q.traded_value())
    } else {
        SortKey::Nothing
    }
}

/// How two watchlist rows stand to each other in a column and direction. A
/// row without a quote comes after every row with one, whatever the
/// direction.
pub open spec fn watchlist_relation(
    col: usize,
    a: Option<StockQuoteModel>,
    b: Option<StockQuoteModel>,
    direction: SortDirection,
) -> Relation {
    match (a, b) {
        (None, None) => Relation::Same,
        (None, Some(_)) => Relation::After,
        (Some(_), None) => Relation::Before,
        (Some(qa), Some(qb)) => directed(
            key_relation(quote_key(col, qa), quote_key(col, qb)),
            direction,
        ),
    }
}

/// The key of a quote in a watchlist column.
pub fn quote_sort_key<'a>(col: usize, q: &'a StockQuote) -> (k: Key<'a>)
    ensures
        k.model() == quote_key(col, q@),
{
    if col == 0 {
        Key::Text(q.symbol.as_str())
    } else if col == 1 {
        Key::Text(q.short_name.as_str())
    } else if col == 2 {
        Key::Unsigned(q.price as u128)
    } else if col == 3 {
        Key::Signed(q.change as i128)
    } else if col == 4 {
        Key::Signed(q.change_percent as i128)
    } else if col == 5 {
        Key::Unsigned(q.open as u128)
    } else if col == 6 {
        Key::Unsigned(q.high as u128)
    } else if col == 7 {
        Key::Unsigned(q.low as u128)
    } else if col == 8 {
        Key::Unsigned(q.volume as u128)
    } else if col == 9 {
        Key::Unsigned(q.traded_value())
    } else {
        Key::Nothing
    }
}

/// How two watchlist rows stand to each other in a column and direction.
pub fn relate_watchlist_rows(
    col: usize,
    a: Option<&StockQuote>,
    b: Option<&StockQuote>,
    direction: SortDirection,
) -> (r: Relation)
    ensures
        r == watchlist_relation(col, a.deep_view(), b.deep_view(), direction),
{
    match (a, b) {
        (None, None) => Relation::Same,
        (None, Some(_)) => Relation::After,
        (Some(_), None) => Relation::Before,
        (Some(qa), Some(qb)) => {
            let ka = quote_sort_key(col, qa);
            let kb = quote_sort_key(col, qb);
            direct(relate_keys(&ka, &kb), direction)
        },
    }
}

/// The order of the watchlist view when a sort column is set.
pub struct WatchlistOrder {
    pub col: usize,
    pub direction: SortDirection,
}

impl<'a> RowOrder<(&'a String, Option<&'a StockQuote>)> for WatchlistOrder {
    open spec fn le(
        &self,
        a: (Seq<char>, Option<StockQuoteModel>),
        b: (Seq<char>, Option<StockQuoteModel>),
    ) -> bool {
        watchlist_relation(self.col, a.1, b.1, self.direction).not_after()
    }

    proof fn le_total(
        &self,
        a: (Seq<char>, Option<StockQuoteModel>),
        b: (Seq<char>, Option<StockQuoteModel>),
    ) {
        if a.1.is_some() && b.1.is_some() {
            let ka = quote_key(self.col, a.1.unwrap());
            let kb = quote_key(self.col, b.1.unwrap());
            lemma_directed_order(ka, kb, ka, self.direction);
        }
    }

    proof fn le_transitive(
        &self,
        a: (Seq<char>, Option<StockQuoteModel>),
        b: (Seq<char>, Option<StockQuoteModel>),
        c: (Seq<char>, Option<StockQuoteModel>),
    ) {
        if a.1.is_some() && b.1.is_some() && c.1.is_some() {
            let ka = quote_key(self.col, a.1.unwrap());
            let kb = quote_key(self.col, b.1.unwrap());
            let kc = quote_key(self.col, c.1.unwrap());
            lemma_directed_order(ka, kb, kc, self.direction);
        }
    }

    fn may_precede(
        &self,
        a: &(&'a String, Option<&'a StockQuote>),
        b: &(&'a String, Option<&'a StockQuote>),
    ) -> (r: bool) {
        relate_watchlist_rows(self.col, a.1, b.1, self.direction) != Relation::After
    }
}

/// The market price of a holding's symbol, 0 where no quote is loaded.
pub open spec fn market_price(quotes: Map<Seq<char>, StockQuoteModel>, symbol: Seq<char>) -> u64 {
    match quote_of(quotes, symbol) {
        Some(q) => q.price,
        None => 0,
    }
}

/// The company name of a holding's symbol, empty where no quote is loaded.
pub open spec fn market_name(
    quotes: Map<Seq<char>, StockQuoteModel>,
    symbol: Seq<char>,
) -> Seq<char> {
    match quote_of(quotes, symbol) {
        Some(q) => q.short_name,
        None => Seq::empty(),
    }
}

/// The key of a holding in a portfolio column: symbol, name, lots, average
/// price, market price, value, cost, gain, gain in percent.
pub open spec fn holding_key(
    col: usize,
    h: HoldingModel,
    quotes: Map<Seq<char>, StockQuoteModel>,
) -> SortKey {
    let price = market_price(quotes, h.symbol);
    if col == 0 {
        SortKey::Text(h.symbol)
    } else if col == 1 {
        SortKey::Text(market_name(quotes, h.symbol))
    } else if col == 2 {
        SortKey::Number(h.lots as int)
    } else if col == 3 {
        SortKey::Number(h.avg_price as int)
    } else if col == 4 {
        SortKey::Number(price as int)
    } else if col == 5 {
        SortKey::Number(h.value_at(price))
    } else if col == 6 {
        SortKey::Number(h.cost_basis())
    } else if col == 7 {
        SortKey::Number(h.pl_at(price))
    } else if col == 8 {
        SortKey::Number(h.pl_percent_at(price))
    } else {
        SortKey::Nothing
    }
}

/// How two holdings stand to each other in a portfolio column.
pub open spec fn portfolio_relation(
    col: usize,
    a: HoldingModel,
    b: HoldingModel,
    quotes: Map<Seq<char>, StockQuoteModel>,
) -> Relation {
    key_relation(holding_key(col, a, quotes), holding_key(col, b, quotes))
}

/// The key of a holding in a portfolio column.
pub fn holding_sort_key<'a>(col: usize, h: &'a Holding, quotes: &'a QuoteCache) -> (k: Key<'a>)
    ensures
        k.model() == holding_key(col, h@, quotes@),
{
    let quote = quotes.get(h.symbol.as_str());
    let price: u64 = match quote {
        Some(q) => q.price,
        None => 0,
    };
    if col == 0 {
        Key::Text(h.symbol.as_str())
    } else if col == 1 {
        match quote {
            Some(q) => Key::Text(q.short_name.as_str()),
            None => {
                let empty: &'static str = "";
                proof {
                    reveal_strlit("");
                    assert(empty@ =~= Seq::<char>::empty());
                }
                Key::Text(empty)
            },
        }
    } else if col == 2 {
        Key::Unsigned(h.lots as u128)
    } else if col == 3 {
        Key::Unsigned(h.avg_price as u128)
    } else if col == 4 {
        Key::Unsigned(price as u128)
    } else if col == 5 {
        Key::Unsigned(h.pl_metrics(price).0)
    } else if col == 6 {
        Key::Unsigned(h.cost_basis())
    } else if col == 7 {
        Key::Signed(h.pl_metrics(price).2)
    } else if col == 8 {
        Key::Signed(h.pl_metrics(price).3)
    } else {
        Key::Nothing
    }
}

/// How two holdings stand to each other in a portfolio column.
pub fn relate_holdings(col: usize, a: &Holding, b: &Holding, quotes: &QuoteCache) -> (r: Relation)
    ensures
        r == portfolio_relation(col, a@, b@, quotes@),
{
    let ka = holding_sort_key(col, a, quotes);
    let kb = holding_sort_key(col, b, quotes);
    relate_keys(&ka, &kb)
}

/// The order of the portfolio view when a sort column is set.
pub struct PortfolioOrder<'q> {
    pub col: usize,
    pub direction: SortDirection,
    pub quotes: &'q QuoteCache,
}

impl<'a, 'q> RowOrder<(usize, &'a Holding)> for PortfolioOrder<'q> {
    open spec fn le(&self, a: (usize, HoldingModel), b: (usize, HoldingModel)) -> bool {
        directed(portfolio_relation(self.col, a.1, b.1, self.quotes@), self.direction).not_after()
    }

    proof fn le_total(&self, a: (usize, HoldingModel), b: (usize, HoldingModel)) {
        let ka = holding_key(self.col, a.1, self.quotes@);
        let kb = holding_key(self.col, b.1, self.quotes@);
        lemma_directed_order(ka, kb, ka, self.direction);
    }

    proof fn le_transitive(
        &self,
        a: (usize, HoldingModel),
        b: (usize, HoldingModel),
        c: (usize, HoldingModel),
    ) {
        let ka = holding_key(self.col, a.1, self.quotes@);
        let kb = holding_key(self.col, b.1, self.quotes@);
        let kc = holding_key(self.col, c.1, self.quotes@);
        lemma_directed_order(ka, kb, kc, self.direction);
    }

    fn may_precede(&self, a: &(usize, &'a Holding), b: &(usize, &'a Holding)) -> (r: bool) {
        direct(relate_holdings(self.col, a.1, b.1, self.quotes), self.direction)
            != Relation::After
    }
}

/// The key of a news item in a column: time, publisher, title.
pub open spec fn news_key(col: usize, n: NewsItemModel) -> SortKey {
    if col == 0 {
        SortKey::Number(n.published_at as int)
    } else if col == 1 {
        SortKey::Text(n.publisher)
    } else if col == 2 {
        SortKey::Text(n.title)
    } else {
        SortKey::Nothing
    }
}

/// How two news items stand to each other in a column.
pub open spec fn news_relation(col: usize, a: NewsItemModel, b: NewsItemModel) -> Relation {
    key_relation(news_key(col, a), news_key(col, b))
}

/// The key of a news item in a column.
pub fn news_sort_key<'a>(col: usize, n: &'a NewsItem) -> (k: Key<'a>)
    ensures
        k.model() == news_key(col, n@),
{
    if col == 0 {
        Key::Signed(n.published_at as i128)
    } else if col == 1 {
        Key::Text(n.publisher.as_str())
    } else if col == 2 {
        Key::Text(n.title.as_str())
    } else {
        Key::Nothing
    }
}

/// How two news items stand to each other in a column.
pub fn relate_news(col: usize, a: &NewsItem, b: &NewsItem) -> (r: Relation)
    ensures
        r == news_relation(col, a@, b@),
{
    let ka = news_sort_key(col, a);
    let kb = news_sort_key(col, b);
    relate_keys(&ka, &kb)
}

/// The column and direction that a list of articles is sorted by: the
/// chosen ones, or the time column with the newest first where none is
/// chosen.
pub open spec fn effective_sort(
    col: Option<usize>,
    direction: SortDirection,
) -> (usize, SortDirection) {
    match col {
        Some(c) => (c, direction),
        None => (0, SortDirection::Descending),
    }
}

/// The order of the news feed.
pub struct NewsOrder {
    pub col: Option<usize>,
    pub direction: SortDirection,
}

impl<'a> RowOrder<&'a NewsItem> for NewsOrder {
    open spec fn le(&self, a: NewsItemModel, b: NewsItemModel) -> bool {
        let (col, direction) = effective_sort(self.col, self.direction);
        directed(news_relation(col, a, b), direction).not_after()
    }

    proof fn le_total(&self, a: NewsItemModel, b: NewsItemModel) {
        let (col, direction) = effective_sort(self.col, self.direction);
        lemma_directed_order(news_key(col, a), news_key(col, b), news_key(col, a), direction);
    }

    proof fn le_transitive(&self, a: NewsItemModel, b: NewsItemModel, c: NewsItemModel) {
        let (col, direction) = effective_sort(self.col, self.direction);
        lemma_directed_order(news_key(col, a), news_key(col, b), news_key(col, c), direction);
    }

    fn may_precede(&self, a: &&'a NewsItem, b: &&'a NewsItem) -> (r: bool) {
        let (col, direction) = match self.col {
            Some(c) => (c, self.direction),
            None => (0, SortDirection::Descending),
        };
        direct(relate_news(col, *a, *b), direction) != Relation::After
    }
}

/// The key of a bookmark in a column: time of bookmarking, time of
/// publication, source, headline.
pub open spec fn bookmark_key(col: usize, b: BookmarkModel) -> SortKey {
    if col == 0 {
        SortKey::Number(b.bookmarked_at as int)
    } else if col == 1 {
        SortKey::Number(b.published_at as int)
    } else if col == 2 {
        SortKey::Text(b.source)
    } else if col == 3 {
        SortKey::Text(b.headline)
    } else {
        SortKey::Nothing
    }
}

/// How two bookmarks stand to each other in a column.
pub open spec fn bookmark_relation(col: usize, a: BookmarkModel, b: BookmarkModel) -> Relation {
    key_relation(bookmark_key(col, a), bookmark_key(col, b))
}

/// The key of a bookmark in a column.
pub fn bookmark_sort_key<'a>(col: usize, b: &'a Bookmark) -> (k: Key<'a>)
    ensures
        k.model() == bookmark_key(col, b@),
{
    if col == 0 {
        Key::Signed(b.bookmarked_at as i128)
    } else if col == 1 {
        Key::Signed(b.published_at as i128)
    } else if col == 2 {
        Key::Text(b.source.as_str())
    } else if col == 3 {
        Key::Text(b.headline.as_str())
    } else {
        Key::Nothing
    }
}

/// How two bookmarks stand to each other in a column.
pub fn relate_bookmarks(col: usize, a: &Bookmark, b: &Bookmark) -> (r: Relation)
    ensures
        r == bookmark_relation(col, a@, b@),
{
    let ka = bookmark_sort_key(col, a);
    let kb = bookmark_sort_key(col, b);
    relate_keys(&ka, &kb)
}

/// The order of the bookmark list.
pub struct BookmarkOrder {
    pub col: Option<usize>,
    pub direction: SortDirection,
}

impl<'a> RowOrder<&'a Bookmark> for BookmarkOrder {
    open spec fn le(&self, a: BookmarkModel, b: BookmarkModel) -> bool {
        let (col, direction) = effective_sort(self.col, self.direction);
        directed(bookmark_relation(col, a, b), direction).not_after()
    }

    proof fn le_total(&self, a: BookmarkModel, b: BookmarkModel) {
        let (col, direction) = effective_sort(self.col, self.direction);
        lemma_directed_order(
            bookmark_key(col, a),
            bookmark_key(col, b),
            bookmark_key(col, a),
            direction,
        );
    }

    proof fn le_transitive(&self, a: BookmarkModel, b: BookmarkModel, c: BookmarkModel) {
        let (col, direction) = effective_sort(self.col, self.direction);
        lemma_directed_order(
            bookmark_key(col, a),
            bookmark_key(col, b),
            bookmark_key(col, c),
            direction,
        );
    }

    fn may_precede(&self, a: &&'a Bookmark, b: &&'a Bookmark) -> (r: bool) {
        let (col, direction) = match self.col {
            Some(c) => (c, self.direction),
            None => (0, SortDirection::Descending),
        };
        direct(relate_bookmarks(col, *a, *b), direction) != Relation::After
    }
}

} // verus!
