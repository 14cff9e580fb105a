//! Quotes, chart data and news items.

use crate::quotes::QuoteCache;
use crate::text::{
    chars_of, ends_with, find_char, find_chars, first_char, first_occurrence, occurs_at_exec,
    slice_chars, strip_trailing, text_of, uppercase_of, without_trailing,
};
use vstd::prelude::*;

verus! {

/// The latest quote of one symbol. Prices, the change and the percentages
/// are fixed-point numbers.
#[derive(Debug, Clone)]
pub struct StockQuote {
    pub symbol: String,
    pub short_name: String,
    pub price: u64,
    pub change: i64,
    pub change_percent: i64,
    pub open: u64,
    pub high: u64,
    pub low: u64,
    pub volume: u64,
    pub prev_close: u64,
    pub long_name: Option<String>,
    pub sector: Option<String>,
    pub industry: Option<String>,
    pub market_cap: Option<u64>,
    pub trailing_pe: Option<i64>,
    pub dividend_yield: Option<i64>,
    pub fifty_two_week_high: Option<u64>,
    pub fifty_two_week_low: Option<u64>,
    pub beta: Option<i64>,
    pub average_volume: Option<u64>,
}

/// The mathematical model of [`StockQuote`]: texts by their characters, lists by
/// their sequences.
pub struct StockQuoteModel {
    pub symbol: Seq<char>,
    pub short_name: Seq<char>,
    pub price: u64,
    pub change: i64,
    pub change_percent: i64,
    pub open: u64,
    pub high: u64,
    pub low: u64,
    pub volume: u64,
    pub prev_close: u64,
    pub long_name: Option<Seq<char>>,
    pub sector: Option<Seq<char>>,
    pub industry: Option<Seq<char>>,
    pub market_cap: Option<u64>,
    pub trailing_pe: Option<i64>,
    pub dividend_yield: Option<i64>,
    pub fifty_two_week_high: Option<u64>,
    pub fifty_two_week_low: Option<u64>,
    pub beta: Option<i64>,
    pub average_volume: Option<u64>,
}

impl DeepView for StockQuote {
    type V = StockQuoteModel;

    open spec fn deep_view(&self) -> StockQuoteModel {
        StockQuoteModel {
            symbol: self.symbol@,
            short_name: self.short_name@,
            price: self.price,
            change: self.change,
            change_percent: self.change_percent,
            open: self.open,
            high: self.high,
            low: self.low,
            volume: self.volume,
            prev_close: self.prev_close,
            long_name: self.long_name.deep_view(),
            sector: self.sector.deep_view(),
            industry: self.industry.deep_view(),
            market_cap: self.market_cap,
            trailing_pe: self.trailing_pe,
            dividend_yield: self.dividend_yield,
            fifty_two_week_high: self.fifty_two_week_high,
            fifty_two_week_low: self.fifty_two_week_low,
            beta: self.beta,
            average_volume: self.average_volume,
        }
    }
}

impl View for StockQuote {
    type V = StockQuoteModel;

    open spec fn view(&self) -> StockQuoteModel {
        self.deep_view()
    }
}

/// Closing prices for the sparkline of the detail view, with their highest
/// and lowest value.
#[derive(Debug, Clone)]
pub struct ChartData {
    pub closes: Vec<u64>,
    pub high: u64,
    pub low: u64,
}

/// The mathematical model of [`ChartData`]: texts by their characters, lists by
/// their sequences.
pub struct ChartDataModel {
    pub closes: Seq<u64>,
    pub high: u64,
    pub low: u64,
}

impl DeepView for ChartData {
    type V = ChartDataModel;

    open spec fn deep_view(&self) -> ChartDataModel {
        ChartDataModel { closes: self.closes@, high: self.high, low: self.low }
    }
}

impl View for ChartData {
    type V = ChartDataModel;

    open spec fn view(&self) -> ChartDataModel {
        self.deep_view()
    }
}

impl ChartData {
    /// Whether `high` and `low` are the largest and smallest closing price.
    pub open spec fn wf(&self) -> bool {
        &&& self.closes@.len() > 0
        &&& self.closes@.contains(self.high)
        &&& self.closes@.contains(self.low)
        &&& forall|i: int| 0 <= i < self.closes@.len() ==> self.low <= #[trigger] self.closes@[i] <= self.high
    }

    /// The chart of the given closing prices, or `None` where there are
    /// none.
    pub fn from_closes(closes: Vec<u64>) -> (r: Option<ChartData>)
        ensures
            r.is_some() == (closes@.len() > 0),
            r.is_some() ==> r.unwrap().closes@ == closes@ && r.unwrap().wf(),
    {
        if closes.len() == 0 {
            return None;
        }
        let mut high: u64 = closes[0];
        let mut low: u64 = closes[0];
        let mut i: usize = 1;
        while i < closes.len()
            invariant
                1 <= i <= closes.len(),
                exists|k: int| 0 <= k < i && closes@[k] == high,
                exists|k: int| 0 <= k < i && closes@[k] == low,
                forall|k: int| 0 <= k < i ==> low <= #[trigger] closes@[k] <= high,
            decreases closes.len() - i,
        {
            if closes[i] > high {
                high = closes[i];
            }
            if closes[i] < low {
                low = closes[i];
            }
            i += 1;
        }
        Some(ChartData { closes, high, low })
    }
}

/// A news article from a feed.
#[derive(Debug, Clone)]
pub struct NewsItem {
    pub title: String,
    pub publisher: String,
    /// Seconds since the Unix epoch, 0 where the feed gave no time.
    pub published_at: i64,
    pub url: Option<String>,
    pub summary: Option<String>,
}

/// The mathematical model of [`NewsItem`]: texts by their characters, lists by
/// their sequences.
pub struct NewsItemModel {
    pub title: Seq<char>,
    pub publisher: Seq<char>,
    pub published_at: i64,
    pub url: Option<Seq<char>>,
    pub summary: Option<Seq<char>>,
}

impl DeepView for NewsItem {
    type V = NewsItemModel;

    open spec fn deep_view(&self) -> NewsItemModel {
        NewsItemModel {
            title: self.title@,
            publisher: self.publisher@,
            published_at: self.published_at,
            url: self.url.deep_view(),
            summary: self.summary.deep_view(),
        }
    }
}

impl View for NewsItem {
    type V = NewsItemModel;

    open spec fn view(&self) -> NewsItemModel {
        self.deep_view()
    }
}

/// A copy of an optional text.
pub fn copy_text(text: &Option<String>) -> (r: Option<String>)
    ensures
        r.deep_view() == text.deep_view(),
{
    match text {
        Some(t) => Some(t.clone()),
        None => None,
    }
}

impl NewsItem {
    /// A copy of the item.
    pub fn duplicate(&self) -> (r: NewsItem)
        ensures
            r@ == self@,
    {
        NewsItem {
            title: self.title.clone(),
            publisher: self.publisher.clone(),
            published_at: self.published_at,
            url: copy_text(&self.url),
            summary: copy_text(&self.summary),
        }
    }
}

/// The symbol under which the quote service knows a stock: the code in
/// upper case with `.JK` behind it, unless it ends with that already.
pub open spec fn yahoo_symbol_of(code: Seq<char>) -> Seq<char> {
    let upper = uppercase_of(code);
    if ends_with(upper, ".JK"@) {
        upper
    } else {
        upper + ".JK"@
    }
}

/// The symbol as the views show it: without the `.JK` at its end.
pub open spec fn display_symbol_of(symbol: Seq<char>) -> Seq<char> {
    without_trailing(symbol, ".JK"@)
}

/// The symbol under which the quote service knows a stock.
pub fn to_yahoo_symbol(code: &str) -> (r: String)
    ensures
        r@ == yahoo_symbol_of(code@),
{
    let upper = code.to_uppercase();
    let chars = chars_of(upper.as_str());
    let suffix = chars_of(".JK");
    proof {
        reveal_strlit(".JK");
    }
    if chars.len() >= 3 && occurs_at_exec(&chars, &suffix, chars.len() - 3) {
        upper
    } else {
        let mut r = upper;
        r.append(".JK");
        r
    }
}

/// The symbol as the views show it.
pub fn display_symbol(symbol: &str) -> (r: String)
    ensures
        r@ == display_symbol_of(symbol@),
{
    let chars = chars_of(symbol);
    let stripped = strip_trailing(chars, &chars_of(".JK"));
    text_of(&stripped)
}

/// The text between the first `pattern` in `html` and the next `"` behind
/// it, unless that text is empty or one of the two is not there.
pub open spec fn text_after(html: Seq<char>, pattern: Seq<char>) -> Option<Seq<char>> {
    match first_occurrence(html, pattern, 0) {
        Some(at) => {
            let start = at + pattern.len();
            let end = first_char(html, '"', start);
            if start < end < html.len() {
                Some(html.subrange(start, end))
            } else {
                None
            }
        },
        None => None,
    }
}

/// The crumb in a page of the quote service: what stands behind
/// `"crumb":"`, or else behind `"CrumbStore":{"crumb":"`.
pub open spec fn crumb_of(html: Seq<char>) -> Option<Seq<char>> {
    match text_after(html, "\"crumb\":\""@) {
        Some(crumb) => Some(crumb),
        None => text_after(html, "\"CrumbStore\":{\"crumb\":\""@),
    }
}

/// The text between the first `pattern` in `html` and the next `"`.
fn find_text_after(html: &Vec<char>, pattern: &str) -> (r: Option<String>)
    ensures
        r.deep_view() == text_after(html@, pattern@),
{
    let needle = chars_of(pattern);
    match find_chars(html, &needle, 0) {
        Some(at) => {
            let start = at + needle.len();
            let end = find_char(html, '"', start);
            if start < end && end < html.len() {
                let crumb = slice_chars(html, start, end);
                Some(text_of(&crumb))
            } else {
                None
            }
        },
        None => None,
    }
}

/// The crumb in a page of the quote service, if the page has one.
pub fn extract_crumb(html: &str) -> (r: Option<String>)
    ensures
        r.deep_view() == crumb_of(html@),
{
    let chars = chars_of(html);
    match find_text_after(&chars, "\"crumb\":\"") {
        Some(crumb) => Some(crumb),
        None => find_text_after(&chars, "\"CrumbStore\":{\"crumb\":\""),
    }
}

/// One result of the quote service, as it came: every field but the symbol
/// may be missing. Amounts are fixed-point numbers.
pub struct QuoteFields {
    pub symbol: String,
    pub short_name: Option<String>,
    pub price: Option<u64>,
    pub change: Option<i64>,
    pub change_percent: Option<i64>,
    pub open: Option<u64>,
    pub high: Option<u64>,
    pub low: Option<u64>,
    pub volume: Option<u64>,
    pub prev_close: Option<u64>,
    pub long_name: Option<String>,
    pub sector: Option<String>,
    pub industry: Option<String>,
    pub market_cap: Option<u64>,
    pub trailing_pe: Option<i64>,
    pub dividend_yield: Option<i64>,
    pub fifty_two_week_high: Option<u64>,
    pub fifty_two_week_low: Option<u64>,
    pub beta: Option<i64>,
    pub average_volume: Option<u64>,
}

/// The mathematical model of [`QuoteFields`]: texts by their characters, lists by
/// their sequences.
pub struct QuoteFieldsModel {
    pub symbol: Seq<char>,
    pub short_name: Option<Seq<char>>,
    pub price: Option<u64>,
    pub change: Option<i64>,
    pub change_percent: Option<i64>,
    pub open: Option<u64>,
    pub high: Option<u64>,
    pub low: Option<u64>,
    pub volume: Option<u64>,
    pub prev_close: Option<u64>,
    pub long_name: Option<Seq<char>>,
    pub sector: Option<Seq<char>>,
    pub industry: Option<Seq<char>>,
    pub market_cap: Option<u64>,
    pub trailing_pe: Option<i64>,
    pub dividend_yield: Option<i64>,
    pub fifty_two_week_high: Option<u64>,
    pub fifty_two_week_low: Option<u64>,
    pub beta: Option<i64>,
    pub average_volume: Option<u64>,
}

impl DeepView for QuoteFields {
    type V = QuoteFieldsModel;

    open spec fn deep_view(&self) -> QuoteFieldsModel {
        QuoteFieldsModel {
            symbol: self.symbol@,
            short_name: self.short_name.deep_view(),
            price: self.price,
            change: self.change,
            change_percent: self.change_percent,
            open: self.open,
            high: self.high,
            low: self.low,
            volume: self.volume,
            prev_close: self.prev_close,
            long_name: self.long_name.deep_view(),
            sector: self.sector.deep_view(),
            industry: self.industry.deep_view(),
            market_cap: self.market_cap,
            trailing_pe: self.trailing_pe,
            dividend_yield: self.dividend_yield,
            fifty_two_week_high: self.fifty_two_week_high,
            fifty_two_week_low: self.fifty_two_week_low,
            beta: self.beta,
            average_volume: self.average_volume,
        }
    }
}

/// An unsigned value, or 0 where it is missing.
pub open spec fn or_zero(value: Option<u64>) -> u64 {
    match value {
        Some(v) => v,
        None => 0,
    }
}

/// A signed value, or 0 where it is missing.
pub open spec fn or_nought(value: Option<i64>) -> i64 {
    match value {
        Some(v) => v,
        None => 0,
    }
}

/// The quote that a result of the quote service makes: the symbol without
/// its `.JK`, the name or "N/A", every missing amount 0; the fundamentals
/// stay missing where they are.
pub open spec fn quote_of_fields(f: QuoteFieldsModel) -> StockQuoteModel {
    StockQuoteModel {
        symbol: display_symbol_of(f.symbol),
        short_name: match f.short_name {
            Some(n) => n,
            None => "N/A"@,
        },
        price: or_zero(f.price),
        change: or_nought(f.change),
        change_percent: or_nought(f.change_percent),
        open: or_zero(f.open),
        high: or_zero(f.high),
        low: or_zero(f.low),
        volume: or_zero(f.volume),
        prev_close: or_zero(f.prev_close),
        long_name: f.long_name,
        sector: f.sector,
        industry: f.industry,
        market_cap: f.market_cap,
        trailing_pe: f.trailing_pe,
        dividend_yield: f.dividend_yield,
        fifty_two_week_high: f.fifty_two_week_high,
        fifty_two_week_low: f.fifty_two_week_low,
        beta: f.beta,
        average_volume: f.average_volume,
    }
}

/// The cache that a run of results makes: each quote filed under the
/// symbol that the views show; of two results for one symbol the later
/// counts.
pub open spec fn quotes_of_results(results: Seq<QuoteFieldsModel>) -> Map<
    Seq<char>,
    StockQuoteModel,
>
    decreases results.len(),
{
    if results.len() == 0 {
        Map::empty()
    } else {
        quotes_of_results(results.drop_last()).insert(
            display_symbol_of(results.last().symbol),
            quote_of_fields(results.last()),
        )
    }
}

/// Where a price stands between the lowest and the highest price of a year,
/// in whole percent from 0 to 100; nothing where one of the two is missing
/// or the highest is not above the lowest.
pub open spec fn range_position_of(price: u64, high: Option<u64>, low: Option<u64>) -> Option<u64> {
    match (high, low) {
        (Some(h), Some(l)) => if h > l {
            Some(
                if price <= l {
                    0u64
                } else if price >= h {
                    100u64
                } else {
                    ((price - l) * 100 / (h - l)) as u64
                },
            )
        } else {
            None
        },
        _ => None,
    }
}

impl StockQuoteModel {
    /// The value traded: the price times the volume.
    pub open spec fn traded_value(self) -> int {
        self.price * self.volume
    }
}

impl StockQuote {
    /// The value traded: the price times the volume, in fixed-point units.
    pub fn traded_value(&self) -> (r: u128)
        ensures
            r == self@.traded_value(),
    {
        assert(self.price * self.volume <= 0xffff_ffff_ffff_ffff * 0xffff_ffff_ffff_ffff)
            by (nonlinear_arith)
            requires
                0 <= self.price <= 0xffff_ffff_ffff_ffff,
                0 <= self.volume <= 0xffff_ffff_ffff_ffff,
        ;
        self.price as u128 * self.volume as u128
    }

    /// Where the price stands between the lowest and the highest price of
    /// the last 52 weeks, in whole percent.
    pub fn range_position(&self) -> (r: Option<u64>)
        ensures
            r == range_position_of(self.price, self.fifty_two_week_high, self.fifty_two_week_low),
    {
        match (self.fifty_two_week_high, self.fifty_two_week_low) {
            (Some(high), Some(low)) => {
                if high > low {
                    if self.price <= low {
                        Some(0)
                    } else if self.price >= high {
                        Some(100)
                    } else {
                        let span: u128 = (high - low) as u128;
                        let above: u128 = (self.price - low) as u128;
                        assert((above * 100) as int / (span as int) < 100) by (nonlinear_arith)
                            requires
                                0 < above < span,
                        ;
                        Some((above * 100 / span) as u64)
                    }
                } else {
                    None
                }
            },
            _ => None,
        }
    }

    /// The quote that a result of the quote service makes.
    pub fn from_fields(fields: QuoteFields) -> (r: StockQuote)
        ensures
            r@ == quote_of_fields(fields.deep_view()),
    {
        let symbol = display_symbol(fields.symbol.as_str());
        StockQuote {
            symbol,
            short_name: match fields.short_name {
                Some(n) => n,
                None => String::from_str("N/A"),
            },
            price: match fields.price {
                Some(v) => v,
                None => 0,
            },
            change: match fields.change {
                Some(v) => v,
                None => 0,
            },
            change_percent: match fields.change_percent {
                Some(v) => v,
                None => 0,
            },
            open: match fields.open {
                Some(v) => v,
                None => 0,
            },
            high: match fields.high {
                Some(v) => v,
                None => 0,
            },
            low: match fields.low {
                Some(v) => v,
                None => 0,
            },
            volume: match fields.volume {
                Some(v) => v,
                None => 0,
            },
            prev_close: match fields.prev_close {
                Some(v) => v,
                None => 0,
            },
            long_name: fields.long_name,
            sector: fields.sector,
            industry: fields.industry,
            market_cap: fields.market_cap,
            trailing_pe: fields.trailing_pe,
            dividend_yield: fields.dividend_yield,
            fifty_two_week_high: fields.fifty_two_week_high,
            fifty_two_week_low: fields.fifty_two_week_low,
            beta: fields.beta,
            average_volume: fields.average_volume,
        }
    }
}

/// The cache that the results of one answer of the quote service make.
pub fn quotes_from_results(results: Vec<QuoteFields>) -> (r: QuoteCache)
    ensures
        r@ == quotes_of_results(results.deep_view()),
{
    let ghost models = results.deep_view();
    let mut r = QuoteCache::new();
    for fields in it: results
        invariant
            it.seq().len() == models.len(),
            forall|k: int| 0 <= k < models.len() ==> (#[trigger] it.seq()[k]).deep_view() == models[k],
            r@ == quotes_of_results(models.take(it.index() as int)),
    {
        assert(models.take(it.index() + 1).drop_last() =~= models.take(it.index() as int));
        let quote = StockQuote::from_fields(fields);
        let key = quote.symbol.clone();
        r.insert(key, quote);
    }
    assert(models.take(models.len() as int) =~= models);
    r
}

} // verus!
