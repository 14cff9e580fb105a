//! The record store: watchlists, portfolios, alerts and bookmarks, and the
//! operations that change them.

pub mod alerts;
pub mod bookmarks;
pub mod holdings;
pub mod migrate;

use crate::number::{decimal, push_decimal, push_text, SCALE};
use crate::rows::{
    filter_rows, find_row, first_where, keep_where, test_of, Except, RowFilter,
};
use crate::text::{same_text, text_of, uppercase_of};
use vstd::prelude::*;

verus! {

/// Shares in one lot.
pub const LOT_SIZE: u64 = 100;

/// Seconds an alert stays quiet after it fired, unless set otherwise.
pub const DEFAULT_COOLDOWN_SECONDS: u32 = 300;

/// A named list of ticker symbols.
#[derive(Debug, Clone)]
pub struct Watchlist {
    pub name: String,
    pub symbols: Vec<String>,
}

/// The mathematical model of [`Watchlist`]: texts by their characters, lists by
/// their sequences.
pub struct WatchlistModel {
    pub name: Seq<char>,
    pub symbols: Seq<Seq<char>>,
}

impl DeepView for Watchlist {
    type V = WatchlistModel;

    open spec fn deep_view(&self) -> WatchlistModel {
        WatchlistModel { name: self.name@, symbols: self.symbols.deep_view() }
    }
}

impl View for Watchlist {
    type V = WatchlistModel;

    open spec fn view(&self) -> WatchlistModel {
        self.deep_view()
    }
}

impl Default for Watchlist {
    fn default() -> (r: Watchlist)
        ensures
            r@.name == "Default"@,
            r@.symbols == seq!["BBCA"@, "BBRI"@, "TLKM"@, "ASII"@],
    {
        let mut symbols: Vec<String> = Vec::new();
        symbols.push(String::from_str("BBCA"));
        symbols.push(String::from_str("BBRI"));
        symbols.push(String::from_str("TLKM"));
        symbols.push(String::from_str("ASII"));
        let r = Watchlist { name: String::from_str("Default"), symbols };
        assert(r@.symbols =~= seq!["BBCA"@, "BBRI"@, "TLKM"@, "ASII"@]);
        r
    }
}

/// The largest value or cost a single holding can have: the most shares
/// times the highest price.
pub const MAX_POSITION: u128 = 7_922_816_249_581_759_351_553_943_142_500;

/// Shares that a number of lots holds.
pub open spec fn shares_of(lots: u32) -> int {
    lots * 100
}

/// What a position cost: shares times the price per share.
pub open spec fn cost_of(lots: u32, price: u64) -> int {
    lots * 100 * price
}

/// `part` as a percentage of `whole`, in fixed-point units and rounded
/// towards zero; 0 where `whole` is not positive.
pub open spec fn percent_of(part: int, whole: int) -> int {
    if whole <= 0 {
        0
    } else if part >= 0 {
        part * 100 * SCALE / whole
    } else {
        -((-part) * 100 * SCALE / whole)
    }
}

/// The lot-weighted average price of two positions, rounded down. Where
/// both hold no lots the first price stands.
pub open spec fn merged_average(lots_a: u32, price_a: u64, lots_b: u32, price_b: u64) -> int {
    if lots_a + lots_b == 0 {
        price_a as int
    } else {
        (cost_of(lots_a, price_a) + cost_of(lots_b, price_b)) / ((lots_a + lots_b) * 100)
    }
}

/// A weighted average lies between 0 and the larger of the two prices.
pub proof fn lemma_merged_average_bounds(lots_a: u32, price_a: u64, lots_b: u32, price_b: u64)
    ensures
        0 <= merged_average(lots_a, price_a, lots_b, price_b) <= u64::MAX,
        merged_average(lots_a, price_a, lots_b, price_b) <= if price_a >= price_b {
            price_a
        } else {
            price_b
        },
{
    if lots_a + lots_b > 0 {
        let top: int = if price_a >= price_b {
            price_a as int
        } else {
            price_b as int
        };
        let total = cost_of(lots_a, price_a) + cost_of(lots_b, price_b);
        let shares = (lots_a + lots_b) * 100;
        assert(0 <= total <= top * shares) by (nonlinear_arith)
            requires
                total == lots_a * 100 * price_a + lots_b * 100 * price_b,
                shares == (lots_a + lots_b) * 100,
                price_a <= top,
                price_b <= top,
                0 <= price_a,
                0 <= price_b,
                0 <= lots_a,
                0 <= lots_b,
        ;
        assert(0 <= total / shares <= top) by (nonlinear_arith)
            requires
                0 <= total <= top * shares,
                shares > 0,
        ;
    }
}

/// Merging two positions gives the same average whichever comes first.
pub proof fn lemma_merged_average_symmetric(lots_a: u32, price_a: u64, lots_b: u32, price_b: u64)
    requires
        lots_a + lots_b > 0,
    ensures
        merged_average(lots_a, price_a, lots_b, price_b) == merged_average(
            lots_b,
            price_b,
            lots_a,
            price_a,
        ),
{
}

/// One position of a portfolio. The average price is in fixed-point units
/// per share.
#[derive(Debug, Clone)]
pub struct Holding {
    pub symbol: String,
    pub lots: u32,
    pub avg_price: u64,
}

/// The mathematical model of [`Holding`]: texts by their characters, lists by
/// their sequences.
pub struct HoldingModel {
    pub symbol: Seq<char>,
    pub lots: u32,
    pub avg_price: u64,
}

impl HoldingModel {
    /// Shares held: 100 for each lot.
    pub open spec fn shares(self) -> int {
        shares_of(self.lots)
    }

    /// What the position cost: shares times the average price.
    pub open spec fn cost_basis(self) -> int {
        cost_of(self.lots, self.avg_price)
    }

    /// What the position is worth at a market price: price times shares.
    pub open spec fn value_at(self, price: u64) -> int {
        price * shares_of(self.lots)
    }

    /// The gain at a market price: value less cost.
    pub open spec fn pl_at(self, price: u64) -> int {
        self.value_at(price) - self.cost_basis()
    }

    /// The gain at a market price as a percentage of the cost, 0 where the
    /// cost is 0.
    pub open spec fn pl_percent_at(self, price: u64) -> int {
        percent_of(self.pl_at(price), self.cost_basis())
    }
}

impl DeepView for Holding {
    type V = HoldingModel;

    open spec fn deep_view(&self) -> HoldingModel {
        HoldingModel { symbol: self.symbol@, lots: self.lots, avg_price: self.avg_price }
    }
}

impl View for Holding {
    type V = HoldingModel;

    open spec fn view(&self) -> HoldingModel {
        self.deep_view()
    }
}

/// The product of a share count and a price fits 128 bits with room to spare.
pub proof fn lemma_position_bounds(lots: u32, price: u64)
    ensures
        0 <= shares_of(lots) <= 429_496_729_500,
        0 <= cost_of(lots, price) <= MAX_POSITION,
        cost_of(lots, price) == price * shares_of(lots),
{
    assert(0 <= lots * 100 * price <= 429_496_729_500 * 0xffff_ffff_ffff_ffff) by (nonlinear_arith)
        requires
            0 <= lots <= 0xffff_ffff,
            0 <= price <= 0xffff_ffff_ffff_ffff,
    ;
    assert(lots * 100 * price == price * (lots * 100)) by (nonlinear_arith);
}

impl Holding {
    /// Shares held: 100 for each lot.
    pub fn shares(&self) -> (r: u64)
        ensures
            r == self@.shares(),
    {
        self.lots as u64 * LOT_SIZE
    }

    /// What the position cost: shares times the average price.
    pub fn cost_basis(&self) -> (r: u128)
        ensures
            r == self@.cost_basis(),
    {
        proof {
            lemma_position_bounds(self.lots, self.avg_price);
        }
        self.shares() as u128 * self.avg_price as u128
    }

    /// What the holding is worth and what it gained at a market price, in
    /// this order: the value (price times shares), the cost basis, the gain
    /// (value less cost), and the gain as a percentage of the cost, which is
    /// 0 where the cost is 0.
    pub fn pl_metrics(&self, current_price: u64) -> (r: (u128, u128, i128, i128))
        ensures
            r.0 == self@.value_at(current_price),
            r.1 == self@.cost_basis(),
            r.2 == self@.pl_at(current_price),
            r.3 == self@.pl_percent_at(current_price),
            self@.cost_basis() == 0 ==> r.3 == 0,
    {
        proof {
            lemma_position_bounds(self.lots, self.avg_price);
            lemma_position_bounds(self.lots, current_price);
        }
        let value: u128 = current_price as u128 * self.shares() as u128;
        let cost: u128 = self.cost_basis();
        let pl: i128 = value as i128 - cost as i128;
        let pl_percent: i128 = percent(pl, cost);
        (value, cost, pl, pl_percent)
    }
}

/// `part` as a percentage of `whole` in fixed-point units, rounded towards
/// zero; 0 where `whole` is 0.
pub fn percent(part: i128, whole: u128) -> (r: i128)
    requires
        -(MAX_POSITION as int) <= part <= MAX_POSITION,
    ensures
        r == percent_of(part as int, whole as int),
{
    if whole == 0 {
        return 0;
    }
    if part >= 0 {
        let scaled: u128 = part as u128 * 1_000_000;
        assert(part * 100 * SCALE == part * 1_000_000) by (nonlinear_arith)
            requires
                SCALE == 10_000,
        ;
        assert(0 <= scaled / whole <= scaled) by (nonlinear_arith)
            requires
                whole > 0,
                scaled >= 0,
        ;
        (scaled / whole) as i128
    } else {
        let scaled: u128 = (-part) as u128 * 1_000_000;
        assert((-part) * 100 * SCALE == (-part) * 1_000_000) by (nonlinear_arith)
            requires
                SCALE == 10_000,
        ;
        assert(0 <= scaled / whole <= scaled) by (nonlinear_arith)
            requires
                whole > 0,
                scaled >= 0,
        ;
        -((scaled / whole) as i128)
    }
}

/// What an alert watches for.
#[derive(Debug, Clone, Copy, PartialEq, Eq, Structural)]
pub enum AlertType {
    Above,
    Below,
    PercentGain,
    PercentLoss,
}

impl AlertType {
    /// The kind that follows this one in the wizard's cycle.
    pub open spec fn following(self) -> AlertType {
        match self {
            AlertType::Above => AlertType::Below,
            AlertType::Below => AlertType::PercentGain,
            AlertType::PercentGain => AlertType::PercentLoss,
            AlertType::PercentLoss => AlertType::Above,
        }
    }

    /// The name shown for this kind.
    pub open spec fn label_text(self) -> Seq<char> {
        match self {
            AlertType::Above => "Above"@,
            AlertType::Below => "Below"@,
            AlertType::PercentGain => "% Gain"@,
            AlertType::PercentLoss => "% Loss"@,
        }
    }

    /// The name shown for this kind.
    pub fn label(&self) -> (r: &'static str)
        ensures
            r@ == self.label_text(),
    {
        match self {
            AlertType::Above => "Above",
            AlertType::Below => "Below",
            AlertType::PercentGain => "% Gain",
            AlertType::PercentLoss => "% Loss",
        }
    }

    /// The kind that follows this one in the wizard's cycle.
    pub fn next(&self) -> (r: AlertType)
        ensures
            r == self.following(),
    {
        match self {
            AlertType::Above => AlertType::Below,
            AlertType::Below => AlertType::PercentGain,
            AlertType::PercentGain => AlertType::PercentLoss,
            AlertType::PercentLoss => AlertType::Above,
        }
    }
}

/// A price or percentage alert on one symbol. The target is in fixed-point
/// units: a price for `Above` and `Below`, a percentage for the other two.
#[derive(Debug, Clone)]
pub struct Alert {
    pub id: String,
    pub symbol: String,
    pub alert_type: AlertType,
    pub target_value: i64,
    pub enabled: bool,
    pub last_triggered: Option<u64>,
    pub cooldown_seconds: u32,
}

/// The mathematical model of [`Alert`]: texts by their characters, lists by
/// their sequences.
pub struct AlertModel {
    pub id: Seq<char>,
    pub symbol: Seq<char>,
    pub alert_type: AlertType,
    pub target_value: i64,
    pub enabled: bool,
    pub last_triggered: Option<u64>,
    pub cooldown_seconds: u32,
}

impl AlertModel {
    /// Whether the alert fired less than its cooldown before `now`. A clock
    /// that went back counts as no time passed.
    pub open spec fn cooling_down(self, now: u64) -> bool {
        match self.last_triggered {
            Some(last) => (if now >= last {
                now - last
            } else {
                0
            }) < self.cooldown_seconds,
            None => false,
        }
    }

    /// Whether the quote meets the alert's condition.
    pub open spec fn condition_met(self, price: u64, change_percent: i64) -> bool {
        match self.alert_type {
            AlertType::Above => price >= self.target_value,
            AlertType::Below => price <= self.target_value,
            AlertType::PercentGain => change_percent >= self.target_value,
            AlertType::PercentLoss => change_percent <= -self.target_value,
        }
    }

    /// Whether the alert fires on the quote at time `now`.
    pub open spec fn fires(self, price: u64, change_percent: i64, now: u64) -> bool {
        self.enabled && !self.cooling_down(now) && self.condition_met(price, change_percent)
    }

    /// The alert that `Alert::new` makes at time `now`.
    pub open spec fn created(
        symbol: Seq<char>,
        alert_type: AlertType,
        target_value: i64,
        now: u64,
    ) -> AlertModel {
        AlertModel {
            id: decimal(now as nat) + seq!['_'] + symbol,
            symbol: uppercase_of(symbol),
            alert_type,
            target_value,
            enabled: true,
            last_triggered: None,
            cooldown_seconds: DEFAULT_COOLDOWN_SECONDS,
        }
    }
}

impl DeepView for Alert {
    type V = AlertModel;

    open spec fn deep_view(&self) -> AlertModel {
        AlertModel {
            id: self.id@,
            symbol: self.symbol@,
            alert_type: self.alert_type,
            target_value: self.target_value,
            enabled: self.enabled,
            last_triggered: self.last_triggered,
            cooldown_seconds: self.cooldown_seconds,
        }
    }
}

impl View for Alert {
    type V = AlertModel;

    open spec fn view(&self) -> AlertModel {
        self.deep_view()
    }
}

impl Alert {
    /// A new enabled alert, created at time `now` (seconds since the epoch).
    /// Its id is the time, an underscore and the symbol as given; the symbol
    /// itself is kept in upper case.
    pub fn new_at(symbol: &str, alert_type: AlertType, target_value: i64, now: u64) -> (r: Alert)
        ensures
            r@ == AlertModel::created(symbol@, alert_type, target_value, now),
    {
        let mut id: Vec<char> = Vec::new();
        push_decimal(&mut id, now as u128);
        id.push('_');
        push_text(&mut id, symbol);
        assert(id@ =~= decimal(now as nat) + seq!['_'] + symbol@);
        Alert {
            id: text_of(&id),
            symbol: symbol.to_uppercase(),
            alert_type,
            target_value,
            enabled: true,
            last_triggered: None,
            cooldown_seconds: DEFAULT_COOLDOWN_SECONDS,
        }
    }

    /// A new enabled alert, stamped with the current time.
    pub fn new(symbol: &str, alert_type: AlertType, target_value: i64) -> (r: Alert)
        ensures
            exists|now: u64| r@ == AlertModel::created(symbol@, alert_type, target_value, now),
    {
        let now = crate::clock::unix_now();
        Alert::new_at(symbol, alert_type, target_value, now)
    }

    /// Whether the alert fires on a quote with the given price and change in
    /// percent at time `now`: never while disabled or cooling down, otherwise
    /// when the quote meets the condition.
    pub fn should_trigger_at(&self, price: u64, change_pct: i64, now: u64) -> (r: bool)
        ensures
            r == self@.fires(price, change_pct, now),
            !self.enabled ==> !r,
    {
        if !self.enabled {
            return false;
        }
        if let Some(last) = self.last_triggered {
            let elapsed: u64 = if now >= last {
                now - last
            } else {
                0
            };
            if elapsed < self.cooldown_seconds as u64 {
                return false;
            }
        }
        let target = self.target_value;
        match self.alert_type {
            AlertType::Above => target < 0 || price >= target as u64,
            AlertType::Below => target >= 0 && price <= target as u64,
            AlertType::PercentGain => change_pct >= target,
            AlertType::PercentLoss => target == i64::MIN || change_pct <= -target,
        }
    }

    /// Whether the alert fires on the quote now, by the system clock.
    pub fn should_trigger(&self, price: u64, change_pct: i64) -> (r: bool)
        ensures
            exists|now: u64| r == self@.fires(price, change_pct, now),
            !self.enabled ==> !r,
    {
        let now = crate::clock::unix_now();
        self.should_trigger_at(price, change_pct, now)
    }
}

/// A named group of holdings.
#[derive(Debug, Clone)]
pub struct Portfolio {
    pub name: String,
    pub holdings: Vec<Holding>,
}

/// The mathematical model of [`Portfolio`]: texts by their characters, lists by
/// their sequences.
pub struct PortfolioModel {
    pub name: Seq<char>,
    pub holdings: Seq<HoldingModel>,
}

impl DeepView for Portfolio {
    type V = PortfolioModel;

    open spec fn deep_view(&self) -> PortfolioModel {
        PortfolioModel { name: self.name@, holdings: self.holdings.deep_view() }
    }
}

impl View for Portfolio {
    type V = PortfolioModel;

    open spec fn view(&self) -> PortfolioModel {
        self.deep_view()
    }
}

/// A news article kept for later. Two bookmarks are the same article when
/// headline and URL agree; the id plays no part in that.
#[derive(Debug, Clone)]
pub struct Bookmark {
    pub id: String,
    pub headline: String,
    pub source: String,
    pub url: Option<String>,
    pub published_at: i64,
    pub bookmarked_at: i64,
    pub read: bool,
}

/// The mathematical model of [`Bookmark`]: texts by their characters, lists by
/// their sequences.
pub struct BookmarkModel {
    pub id: Seq<char>,
    pub headline: Seq<char>,
    pub source: Seq<char>,
    pub url: Option<Seq<char>>,
    pub published_at: i64,
    pub bookmarked_at: i64,
    pub read: bool,
}

impl BookmarkModel {
    /// Whether this bookmark is for the article with the given headline and
    /// URL.
    pub open spec fn is_article(self, headline: Seq<char>, url: Option<Seq<char>>) -> bool {
        self.headline == headline && self.url == url
    }
}

impl DeepView for Bookmark {
    type V = BookmarkModel;

    open spec fn deep_view(&self) -> BookmarkModel {
        BookmarkModel {
            id: self.id@,
            headline: self.headline@,
            source: self.source@,
            url: self.url.deep_view(),
            published_at: self.published_at,
            bookmarked_at: self.bookmarked_at,
            read: self.read,
        }
    }
}

impl View for Bookmark {
    type V = BookmarkModel;

    open spec fn view(&self) -> BookmarkModel {
        self.deep_view()
    }
}

/// Keeps the texts equal to `text`.
pub struct TextIs<'a> {
    pub text: &'a str,
}

impl<'a> RowFilter<String> for TextIs<'a> {
    open spec fn keeps(&self, row: Seq<char>) -> bool {
        row == self.text@
    }

    fn keep(&self, row: &String) -> (r: bool) {
        same_text(row.as_str(), self.text)
    }
}

/// Keeps the holdings of one symbol.
pub struct HoldingOf<'a> {
    pub symbol: &'a str,
}

impl<'a> RowFilter<Holding> for HoldingOf<'a> {
    open spec fn keeps(&self, row: HoldingModel) -> bool {
        row.symbol == self.symbol@
    }

    fn keep(&self, row: &Holding) -> (r: bool) {
        same_text(row.symbol.as_str(), self.symbol)
    }
}

/// Keeps the alerts with one id.
pub struct AlertWithId<'a> {
    pub id: &'a str,
}

impl<'a> RowFilter<Alert> for AlertWithId<'a> {
    open spec fn keeps(&self, row: AlertModel) -> bool {
        row.id == self.id@
    }

    fn keep(&self, row: &Alert) -> (r: bool) {
        same_text(row.id.as_str(), self.id)
    }
}

/// Keeps the alerts on one symbol; with `enabled_only`, only those that are
/// enabled.
pub struct AlertOf<'a> {
    pub symbol: &'a str,
    pub enabled_only: bool,
}

impl<'a> RowFilter<Alert> for AlertOf<'a> {
    open spec fn keeps(&self, row: AlertModel) -> bool {
        row.symbol == self.symbol@ && (row.enabled || !self.enabled_only)
    }

    fn keep(&self, row: &Alert) -> (r: bool) {
        same_text(row.symbol.as_str(), self.symbol) && (row.enabled || !self.enabled_only)
    }
}

/// Keeps the bookmarks with one id.
pub struct BookmarkWithId<'a> {
    pub id: &'a str,
}

impl<'a> RowFilter<Bookmark> for BookmarkWithId<'a> {
    open spec fn keeps(&self, row: BookmarkModel) -> bool {
        row.id == self.id@
    }

    fn keep(&self, row: &Bookmark) -> (r: bool) {
        same_text(row.id.as_str(), self.id)
    }
}

/// Keeps the bookmarks of one article.
pub struct BookmarkOf<'a> {
    pub headline: &'a str,
    pub url: Option<&'a str>,
}

impl<'a> RowFilter<Bookmark> for BookmarkOf<'a> {
    open spec fn keeps(&self, row: BookmarkModel) -> bool {
        row.is_article(self.headline@, self.url.deep_view())
    }

    fn keep(&self, row: &Bookmark) -> (r: bool) {
        if !same_text(row.headline.as_str(), self.headline) {
            return false;
        }
        match (&row.url, self.url) {
            (Some(a), Some(b)) => same_text(a.as_str(), b),
            (None, None) => true,
            _ => false,
        }
    }
}

/// The whole record store, as it is persisted.
#[derive(Debug, Clone)]
pub struct Config {
    pub watchlists: Vec<Watchlist>,
    pub active_watchlist: usize,
    pub refresh_interval_secs: u64,
    /// Holdings in the old flat layout; `migrate_portfolio` moves them into
    /// `portfolios`.
    pub portfolio: Vec<Holding>,
    pub portfolios: Vec<Portfolio>,
    pub active_portfolio: usize,
    pub news_sources: Vec<String>,
    pub alerts: Vec<Alert>,
    pub bookmarks: Vec<Bookmark>,
}

/// The mathematical model of [`Config`]: texts by their characters, lists by
/// their sequences.
pub struct ConfigModel {
    pub watchlists: Seq<WatchlistModel>,
    pub active_watchlist: usize,
    pub refresh_interval_secs: u64,
    pub portfolio: Seq<HoldingModel>,
    pub portfolios: Seq<PortfolioModel>,
    pub active_portfolio: usize,
    pub news_sources: Seq<Seq<char>>,
    pub alerts: Seq<AlertModel>,
    pub bookmarks: Seq<BookmarkModel>,
}

impl DeepView for Config {
    type V = ConfigModel;

    open spec fn deep_view(&self) -> ConfigModel {
        ConfigModel {
            watchlists: self.watchlists.deep_view(),
            active_watchlist: self.active_watchlist,
            refresh_interval_secs: self.refresh_interval_secs,
            portfolio: self.portfolio.deep_view(),
            portfolios: self.portfolios.deep_view(),
            active_portfolio: self.active_portfolio,
            news_sources: self.news_sources.deep_view(),
            alerts: self.alerts.deep_view(),
            bookmarks: self.bookmarks.deep_view(),
        }
    }
}

impl View for Config {
    type V = ConfigModel;

    open spec fn view(&self) -> ConfigModel {
        self.deep_view()
    }
}

/// The index before `i` in a ring of `len` places.
pub open spec fn ring_prev(i: usize, len: nat) -> int {
    if len == 0 {
        i as int
    } else if i == 0 {
        len - 1
    } else {
        i - 1
    }
}

/// The index after `i` in a ring of `len` places.
pub open spec fn ring_next(i: usize, len: nat) -> int {
    if i + 1 >= len {
        0
    } else {
        i + 1
    }
}

/// The index that stays selected once the entry at `i` of `len` entries is
/// gone: `i`, or the new last one where `i` was the last.
pub open spec fn index_after_removal(i: usize, len: nat) -> int {
    if i + 1 >= len {
        len - 2
    } else {
        i as int
    }
}

/// The test that a text is not `text`.
pub open spec fn other_than(text: Seq<char>) -> spec_fn(Seq<char>) -> bool {
    |s: Seq<char>| s != text
}

/// The test that a holding is not of the symbol `symbol`.
pub open spec fn held_other_than(symbol: Seq<char>) -> spec_fn(HoldingModel) -> bool {
    |h: HoldingModel| h.symbol != symbol
}

impl ConfigModel {
    /// Whether the active indices point at a watchlist and a portfolio.
    pub open spec fn wf(self) -> bool {
        &&& self.active_watchlist < self.watchlists.len()
        &&& self.active_portfolio < self.portfolios.len()
    }

    /// The active watchlist.
    pub open spec fn current_watchlist(self) -> WatchlistModel {
        self.watchlists[self.active_watchlist as int]
    }

    /// The active portfolio.
    pub open spec fn current_portfolio(self) -> PortfolioModel {
        self.portfolios[self.active_portfolio as int]
    }

    /// The store with the symbols of the active watchlist replaced.
    pub open spec fn with_symbols(self, symbols: Seq<Seq<char>>) -> ConfigModel {
        ConfigModel {
            watchlists: self.watchlists.update(
                self.active_watchlist as int,
                WatchlistModel { symbols, ..self.current_watchlist() },
            ),
            ..self
        }
    }

    /// The store with the holdings of the active portfolio replaced.
    pub open spec fn with_holdings(self, holdings: Seq<HoldingModel>) -> ConfigModel {
        ConfigModel {
            portfolios: self.portfolios.update(
                self.active_portfolio as int,
                PortfolioModel { holdings, ..self.current_portfolio() },
            ),
            ..self
        }
    }

    /// The symbol joins the active watchlist at its end, unless it is in it.
    pub open spec fn add_stock(self, symbol: Seq<char>) -> ConfigModel {
        let symbols = self.current_watchlist().symbols;
        if symbols.contains(symbol) {
            self
        } else {
            self.with_symbols(symbols.push(symbol))
        }
    }

    /// The symbol leaves the active watchlist.
    pub open spec fn remove_stock(self, symbol: Seq<char>) -> ConfigModel {
        self.with_symbols(keep_where(self.current_watchlist().symbols, other_than(symbol)))
    }

    /// Where the active portfolio holds `symbol`: the index of its first
    /// holding of it, or the number of holdings.
    pub open spec fn holding_index(self, symbol: Seq<char>) -> int {
        first_where(self.current_portfolio().holdings, |h: HoldingModel| h.symbol == symbol)
    }

    /// Whether buying `lots` more of `symbol` is accepted: the lots of one
    /// holding must fit 32 bits.
    #[verifier::opaque]
    pub open spec fn add_holding_accepted(self, symbol: Seq<char>, lots: u32) -> bool {
        let holdings = self.current_portfolio().holdings;
        let i = self.holding_index(symbol);
        i < holdings.len() ==> holdings[i].lots + lots <= u32::MAX
    }

    /// The active portfolio after buying `lots` of `symbol` at `price`: a new
    /// holding at the end, or the existing one with the lots added and the
    /// lot-weighted average price; unchanged where that is not accepted.
    #[verifier::opaque]
    pub open spec fn add_holding(self, symbol: Seq<char>, lots: u32, price: u64) -> ConfigModel {
        let holdings = self.current_portfolio().holdings;
        let i = self.holding_index(symbol);
        if i >= holdings.len() {
            self.with_holdings(holdings.push(HoldingModel { symbol, lots, avg_price: price }))
        } else if holdings[i].lots + lots > u32::MAX {
            self
        } else {
            self.with_holdings(
                holdings.update(
                    i,
                    HoldingModel {
                        symbol: holdings[i].symbol,
                        lots: (holdings[i].lots + lots) as u32,
                        avg_price: merged_average(
                            holdings[i].lots,
                            holdings[i].avg_price,
                            lots,
                            price,
                        ) as u64,
                    },
                ),
            )
        }
    }

    /// Every holding of `symbol` leaves the active portfolio.
    pub open spec fn remove_holding(self, symbol: Seq<char>) -> ConfigModel {
        self.with_holdings(keep_where(self.current_portfolio().holdings, held_other_than(symbol)))
    }

    /// The first holding of `symbol` in the active portfolio gets new lots
    /// and a new average price.
    pub open spec fn update_holding(self, symbol: Seq<char>, lots: u32, price: u64) -> ConfigModel {
        let holdings = self.current_portfolio().holdings;
        let i = self.holding_index(symbol);
        if i < holdings.len() {
            self.with_holdings(
                holdings.update(i, HoldingModel { symbol: holdings[i].symbol, lots, avg_price: price }),
            )
        } else {
            self
        }
    }

    /// The alerts on `symbol`, in their order.
    pub open spec fn alerts_for(self, symbol: Seq<char>) -> Seq<AlertModel> {
        keep_where(self.alerts, |a: AlertModel| a.symbol == symbol)
    }

    /// Index of the first alert with the id, or the number of alerts.
    pub open spec fn alert_index(self, id: Seq<char>) -> int {
        first_where(self.alerts, |a: AlertModel| a.id == id)
    }

    /// Whether an article is bookmarked.
    pub open spec fn is_bookmarked(self, headline: Seq<char>, url: Option<Seq<char>>) -> bool {
        exists|i: int|
            0 <= i < self.bookmarks.len() && (#[trigger] self.bookmarks[i]).is_article(headline, url)
    }
}

/// How often a full refresh of the quotes is due, in seconds, unless set
/// otherwise.
pub fn default_refresh_interval() -> (r: u64)
    ensures
        r == 1,
{
    1
}

/// The news feeds that a new store starts with.
pub open spec fn default_news_source_texts() -> Seq<Seq<char>> {
    seq![
        "https://www.cnbcindonesia.com/market/rss"@,
        "https://www.cnbcindonesia.com/news/rss"@,
        "https://www.idxchannel.com/rss"@,
        "https://rss.tempo.co/bisnis"@,
    ]
}

/// The news feeds that a new store starts with.
pub fn default_news_sources() -> (r: Vec<String>)
    ensures
        r.deep_view() == default_news_source_texts(),
{
    let mut r: Vec<String> = Vec::new();
    r.push(String::from_str("https://www.cnbcindonesia.com/market/rss"));
    r.push(String::from_str("https://www.cnbcindonesia.com/news/rss"));
    r.push(String::from_str("https://www.idxchannel.com/rss"));
    r.push(String::from_str("https://rss.tempo.co/bisnis"));
    assert(r.deep_view() =~= default_news_source_texts());
    r
}

/// The portfolios that a new store starts with: one, empty, named "Default".
pub fn default_portfolios() -> (r: Vec<Portfolio>)
    ensures
        r.deep_view() == seq![
            PortfolioModel { name: "Default"@, holdings: Seq::<HoldingModel>::empty() },
        ],
{
    let mut r: Vec<Portfolio> = Vec::new();
    let p = Portfolio { name: String::from_str("Default"), holdings: Vec::new() };
    assert(p.holdings.deep_view() =~= Seq::<HoldingModel>::empty());
    r.push(p);
    assert(r.deep_view() =~= seq![
        PortfolioModel { name: "Default"@, holdings: Seq::<HoldingModel>::empty() },
    ]);
    r
}

/// The store that a first start begins with.
pub open spec fn default_config() -> ConfigModel {
    ConfigModel {
        watchlists: seq![
            WatchlistModel {
                name: "Banking"@,
                symbols: seq!["BBCA"@, "BBRI"@, "BMRI"@, "BBNI"@],
            },
            WatchlistModel { name: "Tech"@, symbols: seq!["TLKM"@, "GOTO"@, "BUKA"@] },
            WatchlistModel {
                name: "Mining"@,
                symbols: seq!["ADRO"@, "ANTM"@, "INCO"@, "PTBA"@],
            },
        ],
        active_watchlist: 0,
        refresh_interval_secs: 1,
        portfolio: Seq::empty(),
        portfolios: seq![PortfolioModel { name: "Default"@, holdings: Seq::empty() }],
        active_portfolio: 0,
        news_sources: default_news_source_texts(),
        alerts: Seq::empty(),
        bookmarks: Seq::empty(),
    }
}

impl Default for Config {
    fn default() -> (r: Config)
        ensures
            r@ == default_config(),
            r@.wf(),
    {
        let mut banking: Vec<String> = Vec::new();
        banking.push(String::from_str("BBCA"));
        banking.push(String::from_str("BBRI"));
        banking.push(String::from_str("BMRI"));
        banking.push(String::from_str("BBNI"));
        assert(banking.deep_view() =~= seq!["BBCA"@, "BBRI"@, "BMRI"@, "BBNI"@]);
        let mut tech: Vec<String> = Vec::new();
        tech.push(String::from_str("TLKM"));
        tech.push(String::from_str("GOTO"));
        tech.push(String::from_str("BUKA"));
        assert(tech.deep_view() =~= seq!["TLKM"@, "GOTO"@, "BUKA"@]);
        let mut mining: Vec<String> = Vec::new();
        mining.push(String::from_str("ADRO"));
        mining.push(String::from_str("ANTM"));
        mining.push(String::from_str("INCO"));
        mining.push(String::from_str("PTBA"));
        assert(mining.deep_view() =~= seq!["ADRO"@, "ANTM"@, "INCO"@, "PTBA"@]);
        let mut watchlists: Vec<Watchlist> = Vec::new();
        watchlists.push(Watchlist { name: String::from_str("Banking"), symbols: banking });
        watchlists.push(Watchlist { name: String::from_str("Tech"), symbols: tech });
        watchlists.push(Watchlist { name: String::from_str("Mining"), symbols: mining });
        assert(watchlists.deep_view() =~= default_config().watchlists);
        let r = Config {
            watchlists,
            active_watchlist: 0,
            refresh_interval_secs: default_refresh_interval(),
            portfolio: Vec::new(),
            portfolios: default_portfolios(),
            active_portfolio: 0,
            news_sources: default_news_sources(),
            alerts: Vec::new(),
            bookmarks: Vec::new(),
        };
        assert(r.portfolio.deep_view() =~= Seq::<HoldingModel>::empty());
        assert(r.alerts.deep_view() =~= Seq::<AlertModel>::empty());
        assert(r.bookmarks.deep_view() =~= Seq::<BookmarkModel>::empty());
        r
    }
}

impl Config {
    /// Whether the active indices point at a watchlist and a portfolio.
    pub open spec fn wf(&self) -> bool {
        self@.wf()
    }

    /// The active watchlist.
    pub fn current_watchlist(&self) -> (r: &Watchlist)
        requires
            self.active_watchlist < self.watchlists.len(),
        ensures
            *r == self.watchlists[self.active_watchlist as int],
            r@ == self@.current_watchlist(),
    {
        &self.watchlists[self.active_watchlist]
    }

    /// The active watchlist, for changing it.
    pub fn current_watchlist_mut(&mut self) -> (r: &mut Watchlist)
        requires
            old(self).active_watchlist < old(self).watchlists.len(),
        ensures
            *r == old(self).watchlists[old(self).active_watchlist as int],
            *final(self) == (Config {
                watchlists: final(self).watchlists,
                ..*old(self)
            }),
            final(self).watchlists@ == old(self).watchlists@.update(
                old(self).active_watchlist as int,
                *final(r),
            ),
    {
        let a = self.active_watchlist;
        &mut self.watchlists[a]
    }

    /// Makes the next watchlist the active one; after the last comes the
    /// first.
    pub fn next_watchlist(&mut self)
        requires
            old(self).active_watchlist < old(self).watchlists.len(),
        ensures
            final(self)@ == (ConfigModel {
                active_watchlist: ring_next(
                    old(self).active_watchlist,
                    old(self).watchlists@.len(),
                ) as usize,
                ..old(self)@
            }),
            final(self).wf() == old(self).wf(),
    {
        let a = self.active_watchlist;
        self.active_watchlist = if a + 1 == self.watchlists.len() {
            0
        } else {
            a + 1
        };
    }

    /// Makes the previous watchlist the active one; before the first comes
    /// the last.
    pub fn prev_watchlist(&mut self)
        ensures
            final(self)@ == (ConfigModel {
                active_watchlist: ring_prev(
                    old(self).active_watchlist,
                    old(self).watchlists@.len(),
                ) as usize,
                ..old(self)@
            }),
            old(self).wf() ==> final(self).wf(),
    {
        if !self.watchlists.is_empty() {
            self.active_watchlist = if self.active_watchlist == 0 {
                self.watchlists.len() - 1
            } else {
                self.active_watchlist - 1
            };
        }
    }

    /// Adds a symbol, in upper case, to the active watchlist unless it is
    /// there already.
    pub fn add_stock(&mut self, symbol: &str)
        requires
            old(self).active_watchlist < old(self).watchlists.len(),
        ensures
            final(self)@ == old(self)@.add_stock(uppercase_of(symbol@)),
            final(self).wf() == old(self).wf(),
    {
        let symbol = symbol.to_uppercase();
        let a = self.active_watchlist;
        let filter = TextIs { text: symbol.as_str() };
        let found = find_row(&self.watchlists[a].symbols, &filter);
        let ghost symbols = old(self)@.current_watchlist().symbols;
        if found.is_none() {
            proof {
                assert forall|k: int| 0 <= k < symbols.len() implies symbols[k] != symbol@ by {
                    assert(!filter.keeps(symbols[k]));
                }
            }
            self.watchlists[a].symbols.push(symbol);
            proof {
                assert(self.watchlists[a as int].symbols.deep_view() =~= symbols.push(symbol@));
                assert(self.watchlists.deep_view() =~= old(self).watchlists.deep_view().update(
                    a as int,
                    WatchlistModel {
                        symbols: symbols.push(symbol@),
                        ..old(self)@.current_watchlist()
                    },
                ));
            }
        } else {
            assert(symbols[found.unwrap() as int] == symbol@);
        }
    }

    /// Removes a symbol, taken in upper case, from the active watchlist.
    pub fn remove_stock(&mut self, symbol: &str)
        requires
            old(self).active_watchlist < old(self).watchlists.len(),
        ensures
            final(self)@ == old(self)@.remove_stock(uppercase_of(symbol@)),
            final(self).wf() == old(self).wf(),
    {
        let symbol = symbol.to_uppercase();
        self.remove_symbol(symbol.as_str());
    }

    /// Removes a symbol, exactly as it is written, from the active
    /// watchlist.
    pub fn remove_symbol(&mut self, symbol: &str)
        requires
            old(self).active_watchlist < old(self).watchlists.len(),
        ensures
            final(self)@ == old(self)@.remove_stock(symbol@),
            final(self).wf() == old(self).wf(),
    {
        let a = self.active_watchlist;
        let ghost symbols = old(self)@.current_watchlist().symbols;
        let filter = Except { inner: TextIs { text: symbol } };
        filter_rows(&mut self.watchlists[a].symbols, &filter);
        proof {
            assert(test_of::<String, Except<TextIs>>(&filter) =~= other_than(symbol@));
            assert(self.watchlists.deep_view() =~= old(self).watchlists.deep_view().update(
                a as int,
                WatchlistModel {
                    symbols: keep_where(symbols, other_than(symbol@)),
                    ..old(self)@.current_watchlist()
                },
            ));
        }
    }

    /// Adds an empty watchlist with the given name and makes it the active
    /// one.
    pub fn add_watchlist(&mut self, name: &str)
        ensures
            final(self)@ == (ConfigModel {
                watchlists: old(self)@.watchlists.push(
                    WatchlistModel { name: name@, symbols: Seq::empty() },
                ),
                active_watchlist: old(self).watchlists.len(),
                ..old(self)@
            }),
            old(self).active_portfolio < old(self).portfolios.len() ==> final(self).wf(),
    {
        let w = Watchlist { name: String::from_str(name), symbols: Vec::new() };
        assert(w.symbols.deep_view() =~= Seq::<Seq<char>>::empty());
        self.watchlists.push(w);
        self.active_watchlist = self.watchlists.len() - 1;
        assert(self.watchlists.deep_view() =~= old(self)@.watchlists.push(
            WatchlistModel { name: name@, symbols: Seq::empty() },
        ));
    }

    /// Removes the active watchlist, unless it is the only one. The one that
    /// follows it becomes active, or the last one where it was the last.
    pub fn remove_watchlist(&mut self)
        requires
            old(self).active_watchlist < old(self).watchlists.len(),
        ensures
            old(self).watchlists.len() <= 1 ==> final(self)@ == old(self)@,
            old(self).watchlists.len() > 1 ==> final(self)@ == (ConfigModel {
                watchlists: old(self)@.watchlists.remove(old(self).active_watchlist as int),
                active_watchlist: index_after_removal(
                    old(self).active_watchlist,
                    old(self).watchlists@.len(),
                ) as usize,
                ..old(self)@
            }),
            final(self).watchlists.len() >= 1,
            final(self).wf() == old(self).wf(),
    {
        if self.watchlists.len() > 1 {
            self.watchlists.remove(self.active_watchlist);
            if self.active_watchlist >= self.watchlists.len() {
                self.active_watchlist = self.watchlists.len() - 1;
            }
            assert(self.watchlists.deep_view() =~= old(self)@.watchlists.remove(
                old(self).active_watchlist as int,
            ));
        }
    }

    /// Gives the active watchlist a new name.
    pub fn rename_watchlist(&mut self, new_name: &str)
        requires
            old(self).active_watchlist < old(self).watchlists.len(),
        ensures
            final(self)@ == (ConfigModel {
                watchlists: old(self)@.watchlists.update(
                    old(self).active_watchlist as int,
                    WatchlistModel { name: new_name@, ..old(self)@.current_watchlist() },
                ),
                ..old(self)@
            }),
            final(self).wf() == old(self).wf(),
    {
        let a = self.active_watchlist;
        self.watchlists[a].name = String::from_str(new_name);
        assert(self.watchlists.deep_view() =~= old(self)@.watchlists.update(
            a as int,
            WatchlistModel { name: new_name@, ..old(self)@.current_watchlist() },
        ));
    }

    /// The active portfolio.
    pub fn current_portfolio(&self) -> (r: &Portfolio)
        requires
            self.active_portfolio < self.portfolios.len(),
        ensures
            *r == self.portfolios[self.active_portfolio as int],
            r@ == self@.current_portfolio(),
    {
        &self.portfolios[self.active_portfolio]
    }

    /// The active portfolio, for changing it.
    pub fn current_portfolio_mut(&mut self) -> (r: &mut Portfolio)
        requires
            old(self).active_portfolio < old(self).portfolios.len(),
        ensures
            *r == old(self).portfolios[old(self).active_portfolio as int],
            *final(self) == (Config {
                portfolios: final(self).portfolios,
                ..*old(self)
            }),
            final(self).portfolios@ == old(self).portfolios@.update(
                old(self).active_portfolio as int,
                *final(r),
            ),
    {
        let a = self.active_portfolio;
        &mut self.portfolios[a]
    }

    /// Makes the next portfolio the active one; after the last comes the
    /// first.
    pub fn next_portfolio(&mut self)
        requires
            old(self).active_portfolio < old(self).portfolios.len(),
        ensures
            final(self)@ == (ConfigModel {
                active_portfolio: ring_next(
                    old(self).active_portfolio,
                    old(self).portfolios@.len(),
                ) as usize,
                ..old(self)@
            }),
            final(self).wf() == old(self).wf(),
    {
        let a = self.active_portfolio;
        self.active_portfolio = if a + 1 == self.portfolios.len() {
            0
        } else {
            a + 1
        };
    }

    /// Makes the previous portfolio the active one; before the first comes
    /// the last.
    pub fn prev_portfolio(&mut self)
        ensures
            final(self)@ == (ConfigModel {
                active_portfolio: ring_prev(
                    old(self).active_portfolio,
                    old(self).portfolios@.len(),
                ) as usize,
                ..old(self)@
            }),
            old(self).wf() ==> final(self).wf(),
    {
        if !self.portfolios.is_empty() {
            self.active_portfolio = if self.active_portfolio == 0 {
                self.portfolios.len() - 1
            } else {
                self.active_portfolio - 1
            };
        }
    }

    /// Adds an empty portfolio with the given name and makes it the active
    /// one.
    pub fn add_portfolio(&mut self, name: &str)
        ensures
            final(self)@ == (ConfigModel {
                portfolios: old(self)@.portfolios.push(
                    PortfolioModel { name: name@, holdings: Seq::empty() },
                ),
                active_portfolio: old(self).portfolios.len(),
                ..old(self)@
            }),
            old(self).active_watchlist < old(self).watchlists.len() ==> final(self).wf(),
    {
        let p = Portfolio { name: String::from_str(name), holdings: Vec::new() };
        assert(p.holdings.deep_view() =~= Seq::<HoldingModel>::empty());
        self.portfolios.push(p);
        self.active_portfolio = self.portfolios.len() - 1;
        assert(self.portfolios.deep_view() =~= old(self)@.portfolios.push(
            PortfolioModel { name: name@, holdings: Seq::empty() },
        ));
    }

    /// Removes the active portfolio, unless it is the only one. The one that
    /// follows it becomes active, or the last one where it was the last.
    pub fn remove_portfolio(&mut self)
        requires
            old(self).active_portfolio < old(self).portfolios.len(),
        ensures
            old(self).portfolios.len() <= 1 ==> final(self)@ == old(self)@,
            old(self).portfolios.len() > 1 ==> final(self)@ == (ConfigModel {
                portfolios: old(self)@.portfolios.remove(old(self).active_portfolio as int),
                active_portfolio: index_after_removal(
                    old(self).active_portfolio,
                    old(self).portfolios@.len(),
                ) as usize,
                ..old(self)@
            }),
            final(self).portfolios.len() >= 1,
            final(self).wf() == old(self).wf(),
    {
        if self.portfolios.len() > 1 {
            self.portfolios.remove(self.active_portfolio);
            if self.active_portfolio >= self.portfolios.len() {
                self.active_portfolio = self.portfolios.len() - 1;
            }
            assert(self.portfolios.deep_view() =~= old(self)@.portfolios.remove(
                old(self).active_portfolio as int,
            ));
        }
    }

    /// Gives the active portfolio a new name.
    pub fn rename_portfolio(&mut self, new_name: &str)
        requires
            old(self).active_portfolio < old(self).portfolios.len(),
        ensures
            final(self)@ == (ConfigModel {
                portfolios: old(self)@.portfolios.update(
                    old(self).active_portfolio as int,
                    PortfolioModel { name: new_name@, ..old(self)@.current_portfolio() },
                ),
                ..old(self)@
            }),
            final(self).wf() == old(self).wf(),
    {
        let a = self.active_portfolio;
        self.portfolios[a].name = String::from_str(new_name);
        assert(self.portfolios.deep_view() =~= old(self)@.portfolios.update(
            a as int,
            PortfolioModel { name: new_name@, ..old(self)@.current_portfolio() },
        ));
    }
}

} // verus!
