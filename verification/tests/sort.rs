use idx_cli::api::{NewsItem, StockQuote};
use idx_cli::app::sort::{compare_news_column, compare_portfolio_column, compare_watchlist_column};
use idx_cli::app::SortDirection;
use idx_cli::config::Holding;
use idx_cli::quotes::QuoteCache;
use std::cmp::Ordering;

#[test]
fn sort_test_watchlist_sort_by_symbol() {
    let qa = make_quote("AAAA", 1000.0, 10.0, 1.0);
    let qb = make_quote("BBBB", 2000.0, 20.0, 2.0);
    let sa = "AAAA".to_string();
    let sb = "BBBB".to_string();
    let a = (&sa, Some(&qa));
    let b = (&sb, Some(&qb));
    assert_eq!(
        compare_watchlist_column(0, &a, &b, SortDirection::Ascending),
        Ordering::Less
    );
}

#[test]
fn sort_test_watchlist_sort_by_price() {
    let qa = make_quote("BBCA", 8000.0, 50.0, 0.6);
    let qb = make_quote("BBRI", 9000.0, -30.0, -0.3);
    let sa = "BBCA".to_string();
    let sb = "BBRI".to_string();
    let a = (&sa, Some(&qa));
    let b = (&sb, Some(&qb));
    assert_eq!(
        compare_watchlist_column(2, &a, &b, SortDirection::Ascending),
        Ordering::Less
    );
}

#[test]
fn sort_test_watchlist_sort_by_change_percent() {
    let qa = make_quote("BBCA", 8000.0, -200.0, -2.5);
    let qb = make_quote("BBRI", 9000.0, 135.0, 1.5);
    let sa = "BBCA".to_string();
    let sb = "BBRI".to_string();
    let a = (&sa, Some(&qa));
    let b = (&sb, Some(&qb));
    assert_eq!(
        compare_watchlist_column(4, &a, &b, SortDirection::Ascending),
        Ordering::Less
    );
}

#[test]
fn sort_test_watchlist_sort_by_volume() {
    let mut qa = make_quote("BBCA", 8000.0, 50.0, 0.6);
    let mut qb = make_quote("BBRI", 9000.0, 30.0, 0.3);
    qa.volume = 500_000;
    qb.volume = 2_000_000;
    let sa = "BBCA".to_string();
    let sb = "BBRI".to_string();
    let a = (&sa, Some(&qa));
    let b = (&sb, Some(&qb));
    assert_eq!(
        compare_watchlist_column(8, &a, &b, SortDirection::Ascending),
        Ordering::Less
    );
}

#[test]
fn sort_test_watchlist_sort_descending_reverses() {
    let qa = make_quote("BBCA", 8000.0, 50.0, 0.6);
    let qb = make_quote("BBRI", 9000.0, 30.0, 0.3);
    let sa = "BBCA".to_string();
    let sb = "BBRI".to_string();
    let a = (&sa, Some(&qa));
    let b = (&sb, Some(&qb));
    assert_eq!(
        compare_watchlist_column(2, &a, &b, SortDirection::Descending),
        Ordering::Greater
    );
}

#[test]
fn sort_test_watchlist_sort_none_quote_sorts_last() {
    let qb = make_quote("BBRI", 9000.0, 30.0, 0.3);
    let sa = "BBCA".to_string();
    let sb = "BBRI".to_string();
    let a: (&String, Option<&StockQuote>) = (&sa, None);
    let b = (&sb, Some(&qb));
    assert_eq!(
        compare_watchlist_column(2, &a, &b, SortDirection::Ascending),
        Ordering::Greater
    );
}

#[test]
fn sort_test_watchlist_sort_both_none_equal() {
    let sa = "BBCA".to_string();
    let sb = "BBRI".to_string();
    let a: (&String, Option<&StockQuote>) = (&sa, None);
    let b: (&String, Option<&StockQuote>) = (&sb, None);
    assert_eq!(
        compare_watchlist_column(2, &a, &b, SortDirection::Ascending),
        Ordering::Equal
    );
}

#[test]
fn sort_test_watchlist_sort_invalid_column() {
    let qa = make_quote("BBCA", 8000.0, 50.0, 0.6);
    let qb = make_quote("BBRI", 9000.0, 30.0, 0.3);
    let sa = "BBCA".to_string();
    let sb = "BBRI".to_string();
    let a = (&sa, Some(&qa));
    let b = (&sb, Some(&qb));
    assert_eq!(
        compare_watchlist_column(99, &a, &b, SortDirection::Ascending),
        Ordering::Equal
    );
}

#[test]
fn sort_test_portfolio_sort_by_symbol() {
    let a = make_holding("AAAA", 10, 1000.0);
    let b = make_holding("ZZZZ", 10, 1000.0);
    let quotes = QuoteCache::new();
    assert_eq!(compare_portfolio_column(0, &a, &b, &quotes), Ordering::Less);
}

#[test]
fn sort_test_portfolio_sort_by_lots() {
    let a = make_holding("BBCA", 5, 8000.0);
    let b = make_holding("BBRI", 20, 5000.0);
    let quotes = QuoteCache::new();
    assert_eq!(compare_portfolio_column(2, &a, &b, &quotes), Ordering::Less);
}

#[test]
fn sort_test_portfolio_sort_by_avg_price() {
    let a = make_holding("BBCA", 10, 7500.0);
    let b = make_holding("BBRI", 10, 9200.0);
    let quotes = QuoteCache::new();
    assert_eq!(compare_portfolio_column(3, &a, &b, &quotes), Ordering::Less);
}

#[test]
fn sort_test_portfolio_sort_by_current_price() {
    let a = make_holding("BBCA", 10, 8000.0);
    let b = make_holding("BBRI", 10, 5000.0);
    let mut quotes = QuoteCache::new();
    quotes.insert("BBCA".to_string(), make_quote("BBCA", 8500.0, 50.0, 0.6));
    quotes.insert("BBRI".to_string(), make_quote("BBRI", 9500.0, 30.0, 0.3));
    assert_eq!(compare_portfolio_column(4, &a, &b, &quotes), Ordering::Less);
}

#[test]
fn sort_test_portfolio_sort_by_pl_percent() {
    let a = make_holding("BBCA", 10, 8000.0);
    let b = make_holding("BBRI", 10, 9000.0);
    let mut quotes = QuoteCache::new();
    quotes.insert("BBCA".to_string(), make_quote("BBCA", 9000.0, 0.0, 0.0));
    quotes.insert("BBRI".to_string(), make_quote("BBRI", 8000.0, 0.0, 0.0));
    assert_eq!(
        compare_portfolio_column(8, &a, &b, &quotes),
        Ordering::Greater
    );
}

#[test]
fn sort_test_portfolio_sort_missing_quote_defaults_zero() {
    let a = make_holding("BBCA", 10, 8000.0);
    let b = make_holding("BBRI", 10, 5000.0);
    let quotes = QuoteCache::new();
    assert_eq!(
        compare_portfolio_column(4, &a, &b, &quotes),
        Ordering::Equal
    );
}

#[test]
fn sort_test_portfolio_sort_invalid_column() {
    let a = make_holding("BBCA", 10, 8000.0);
    let b = make_holding("BBRI", 20, 5000.0);
    let quotes = QuoteCache::new();
    assert_eq!(
        compare_portfolio_column(99, &a, &b, &quotes),
        Ordering::Equal
    );
}

#[test]
fn sort_test_news_sort_by_time() {
    let a = make_news_item("Earlier", "CNBC", 1000);
    let b = make_news_item("Later", "CNBC", 2000);
    assert_eq!(compare_news_column(0, &a, &b), Ordering::Less);
}

#[test]
fn sort_test_news_sort_by_publisher() {
    let a = make_news_item("Title", "AAA News", 1000);
    let b = make_news_item("Title", "ZZZ News", 1000);
    assert_eq!(compare_news_column(1, &a, &b), Ordering::Less);
}

#[test]
fn sort_test_news_sort_by_title() {
    let a = make_news_item("Alpha headline", "CNBC", 1000);
    let b = make_news_item("Zeta headline", "CNBC", 1000);
    assert_eq!(compare_news_column(2, &a, &b), Ordering::Less);
}

#[test]
fn sort_test_news_sort_invalid_column() {
    let a = make_news_item("Title", "CNBC", 1000);
    let b = make_news_item("Title", "CNBC", 2000);
    assert_eq!(compare_news_column(99, &a, &b), Ordering::Equal);
}

fn fx(v: f64) -> u64 {
    (v * 10_000.0).round() as u64
}

fn fxi(v: f64) -> i64 {
    (v * 10_000.0).round() as i64
}

fn make_quote(symbol: &str, price: f64, change: f64, change_pct: f64) -> StockQuote {
    StockQuote {
        symbol: symbol.to_string(),
        short_name: format!("{} Corp", symbol),
        price: fx(price),
        change: fxi(change),
        change_percent: fxi(change_pct),
        open: fx(price - 10.0),
        high: fx(price + 20.0),
        low: fx(price - 20.0),
        volume: 1_000_000,
        prev_close: fx(price - change),
        long_name: None,
        sector: None,
        industry: None,
        market_cap: None,
        trailing_pe: None,
        dividend_yield: None,
        fifty_two_week_high: None,
        fifty_two_week_low: None,
        beta: None,
        average_volume: None,
    }
}

fn make_news_item(title: &str, publisher: &str, ts: i64) -> NewsItem {
    NewsItem {
        title: title.to_string(),
        publisher: publisher.to_string(),
        published_at: ts,
        url: None,
        summary: None,
    }
}

fn make_holding(symbol: &str, lots: u32, avg_price: f64) -> Holding {
    Holding { symbol: symbol.to_string(), lots, avg_price: fx(avg_price) }
}
