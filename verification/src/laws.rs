//! What holds of the library as a whole: laws that relate several
//! operations, each proved from the operations' own contracts and models.

use crate::app::alerts::{alert_fires, stamped_of, triggered_of};
use crate::app::filter::search_hit;
use crate::app::keys::{
    bookmark_key, holding_key, lemma_directed_order, news_key, quote_key, effective_sort,
};
use crate::app::navigation::{moved_down, moved_up, selection_in_range};
use crate::app::{AppModel, ViewMode};
use crate::api::{NewsItemModel, StockQuoteModel};
use crate::config::{
    lemma_merged_average_symmetric, AlertModel, BookmarkModel, ConfigModel, HoldingModel,
};
use crate::quotes::quote_of;
use crate::rows::{
    is_total_preorder, keep_where, lemma_filter_then_sort_idempotent, lemma_first_where,
    lemma_first_where_is, lemma_keep_where, lemma_stable_sort_permutes, stable_sort,
};
use crate::text::{trimmed, uppercase_of};
use vstd::prelude::*;

verus! {

/// Filtering keeps a sequence free of duplicates.
pub proof fn lemma_keep_where_no_duplicates<A>(s: Seq<A>, pred: spec_fn(A) -> bool)
    requires
        s.no_duplicates(),
    ensures
        keep_where(s, pred).no_duplicates(),
    decreases s.len(),
{
    if s.len() > 0 {
        let init = s.drop_last();
        assert(init.no_duplicates()) by {
            assert forall|i: int, j: int| 0 <= i < init.len() && 0 <= j < init.len() && i
                != j implies init[i] != init[j] by {
                assert(init[i] == s[i] && init[j] == s[j]);
            }
        }
        lemma_keep_where_no_duplicates(init, pred);
        lemma_keep_where(init, pred);
        let k = keep_where(init, pred);
        if pred(s.last()) {
            assert forall|i: int, j: int| 0 <= i < k.len() + 1 && 0 <= j < k.len() + 1 && i
                != j implies k.push(s.last())[i] != k.push(s.last())[j] by {
                if i < k.len() && j == k.len() {
                    assert(init.contains(k[i]));
                    let m = choose|m: int| 0 <= m < init.len() && init[m] == k[i];
                    assert(s[m] == k[i]);
                }
                if j < k.len() && i == k.len() {
                    assert(init.contains(k[j]));
                    let m = choose|m: int| 0 <= m < init.len() && init[m] == k[j];
                    assert(s[m] == k[j]);
                }
            }
        }
    }
}

/// Filtering rows that are made from keys one by one keeps as many rows as
/// filtering the keys by the same test.
pub proof fn lemma_keep_where_of_rows<A, B>(
    keys: Seq<A>,
    make: spec_fn(A) -> B,
    row_test: spec_fn(B) -> bool,
    key_test: spec_fn(A) -> bool,
)
    requires
        forall|a: A| #[trigger] key_test(a) == row_test(make(a)),
    ensures
        keep_where(Seq::new(keys.len(), |i: int| make(keys[i])), row_test).len() == keep_where(
            keys,
            key_test,
        ).len(),
    decreases keys.len(),
{
    if keys.len() > 0 {
        let rows = Seq::new(keys.len(), |i: int| make(keys[i]));
        let init = keys.drop_last();
        lemma_keep_where_of_rows(init, make, row_test, key_test);
        assert(rows.drop_last() =~= Seq::new(init.len(), |i: int| make(init[i])));
        assert(rows.last() == make(keys.last()));
        assert(key_test(keys.last()) == row_test(make(keys.last())));
    }
}

impl AppModel {
    /// Whether the search keeps a symbol.
    pub open spec fn keeps_symbol(self) -> spec_fn(Seq<char>) -> bool {
        |symbol: Seq<char>| search_hit(self.search_active, self.search_query, symbol)
    }

    /// What the watchlist view rests on: the active indices point at a
    /// watchlist and a portfolio, no symbol is twice in the active
    /// watchlist, and the selection points at a row of the view (at 0
    /// where the view is empty).
    pub open spec fn watchlist_ok(self) -> bool {
        &&& self.config.wf()
        &&& self.config.current_watchlist().symbols.no_duplicates()
        &&& selection_in_range(self.selected_index, self.filtered_watchlist().len())
    }
}

/// The watchlist view has as many rows as the active watchlist has symbols
/// that the search keeps.
pub proof fn lemma_watchlist_row_count(session: AppModel)
    ensures
        session.filtered_watchlist().len() == keep_where(
            session.config.current_watchlist().symbols,
            session.keeps_symbol(),
        ).len(),
{
    let symbols = session.config.current_watchlist().symbols;
    let make = |s: Seq<char>| (s, quote_of(session.quotes, s));
    assert(session.raw_watchlist() =~= Seq::new(symbols.len(), |i: int| make(symbols[i])));
    lemma_keep_where_of_rows(symbols, make, session.keeps_watchlist_row(), session.keeps_symbol());
    let rows = keep_where(session.raw_watchlist(), session.keeps_watchlist_row());
    match session.watchlist_sort_column {
        Some(col) => {
            lemma_stable_sort_permutes(rows, session.watchlist_order(col));
        },
        None => {},
    }
}

/// Adding a symbol keeps the active watchlist free of duplicates.
pub proof fn lemma_add_stock_keeps_unique(config: ConfigModel, symbol: Seq<char>)
    requires
        config.wf(),
        config.current_watchlist().symbols.no_duplicates(),
    ensures
        config.add_stock(symbol).wf(),
        config.add_stock(symbol).current_watchlist().symbols.no_duplicates(),
        config.add_stock(symbol).current_watchlist().symbols.contains(symbol),
{
    let symbols = config.current_watchlist().symbols;
    if !symbols.contains(symbol) {
        let longer = symbols.push(symbol);
        assert(longer[symbols.len() as int] == symbol);
        assert forall|i: int, j: int| 0 <= i < longer.len() && 0 <= j < longer.len() && i
            != j implies longer[i] != longer[j] by {
            if i < symbols.len() && j < symbols.len() {
                assert(symbols[i] != symbols[j]);
            } else if i < symbols.len() {
                assert(symbols.contains(symbols[i]));
            } else {
                assert(symbols.contains(symbols[j]));
            }
        }
    }
}

/// Removing a symbol keeps the active watchlist free of duplicates, and
/// the symbol is gone.
pub proof fn lemma_remove_stock_keeps_unique(config: ConfigModel, symbol: Seq<char>)
    requires
        config.wf(),
        config.current_watchlist().symbols.no_duplicates(),
    ensures
        config.remove_stock(symbol).wf(),
        config.remove_stock(symbol).current_watchlist().symbols.no_duplicates(),
        !config.remove_stock(symbol).current_watchlist().symbols.contains(symbol),
{
    let symbols = config.current_watchlist().symbols;
    let other = crate::config::other_than(symbol);
    lemma_keep_where_no_duplicates(symbols, other);
    lemma_keep_where(symbols, other);
    let left = keep_where(symbols, other);
    assert(config.remove_stock(symbol).current_watchlist().symbols == left);
    if left.contains(symbol) {
        let i = choose|i: int| 0 <= i < left.len() && left[i] == symbol;
        assert(other(left[i]));
    }
}

/// Confirming a new symbol keeps the watchlist view in order: no symbol
/// twice, the selection on a row.
pub proof fn lemma_confirm_add_keeps_watchlist_ok(session: AppModel)
    requires
        session.watchlist_ok(),
    ensures
        session.confirm_add().watchlist_ok(),
{
    let after = session.confirm_add();
    if session.input_buffer.len() > 0 {
        let symbol = uppercase_of(uppercase_of(trimmed(session.input_buffer)));
        lemma_add_stock_keeps_unique(session.config, symbol);
        lemma_watchlist_row_count(session);
        lemma_watchlist_row_count(after);
        let symbols = session.config.current_watchlist().symbols;
        assert(after.keeps_symbol() =~= session.keeps_symbol());
        if !symbols.contains(symbol) {
            assert(after.config.current_watchlist().symbols == symbols.push(symbol));
            assert(symbols.push(symbol).drop_last() =~= symbols);
        }
    } else {
        lemma_watchlist_row_count(session);
        lemma_watchlist_row_count(after);
        assert(after.keeps_symbol() =~= session.keeps_symbol());
    }
}

/// Taking a member out of a sequence without duplicates makes the sequence
/// one shorter, and where a test keeps the member, what the test keeps is
/// one fewer too.
pub proof fn lemma_keep_where_without_member<A>(
    s: Seq<A>,
    x: A,
    other: spec_fn(A) -> bool,
    pred: spec_fn(A) -> bool,
)
    requires
        s.no_duplicates(),
        s.contains(x),
        pred(x),
        forall|a: A| #[trigger] other(a) == (a != x),
    ensures
        keep_where(s, other).len() + 1 == s.len(),
        keep_where(keep_where(s, other), pred).len() + 1 == keep_where(s, pred).len(),
    decreases s.len(),
{
    if s.len() > 0 {
        let init = s.drop_last();
        assert(init.no_duplicates()) by {
            assert forall|i: int, j: int| 0 <= i < init.len() && 0 <= j < init.len() && i
                != j implies init[i] != init[j] by {
                assert(init[i] == s[i] && init[j] == s[j]);
            }
        }
        if s.last() == x {
            assert forall|i: int| 0 <= i < init.len() implies other(#[trigger] init[i]) by {
                assert(init[i] == s[i]);
                assert(s[i] != s[s.len() - 1]);
            }
            crate::rows::lemma_keep_where_all(init, other);
        } else {
            let k = choose|k: int| 0 <= k < s.len() && s[k] == x;
            assert(init[k] == x);
            lemma_keep_where_without_member(init, x, other, pred);
            assert(other(s.last()));
            assert(keep_where(s, other).drop_last() =~= keep_where(init, other));
        }
    }
}

/// The symbol of the selected watchlist row is a symbol of the active
/// watchlist, and the search keeps it.
pub proof fn lemma_selected_symbol_is_listed(session: AppModel)
    requires
        session.selected_watchlist_symbol().is_some(),
    ensures
        session.config.current_watchlist().symbols.contains(
            session.selected_watchlist_symbol().unwrap(),
        ),
        search_hit(
            session.search_active,
            session.search_query,
            session.selected_watchlist_symbol().unwrap(),
        ),
{
    broadcast use vstd::seq_lib::group_to_multiset_ensures;

    let symbols = session.config.current_watchlist().symbols;
    let raw = session.raw_watchlist();
    let kept = keep_where(raw, session.keeps_watchlist_row());
    let rows = session.filtered_watchlist();
    let row = rows[session.selected_index as int];
    lemma_keep_where(raw, session.keeps_watchlist_row());
    match session.watchlist_sort_column {
        Some(col) => {
            lemma_stable_sort_permutes(kept, session.watchlist_order(col));
            assert(rows.to_multiset().count(row) > 0);
            assert(kept.to_multiset().count(row) > 0);
        },
        None => {},
    }
    assert(kept.contains(row));
    let k = choose|k: int| 0 <= k < kept.len() && kept[k] == row;
    assert(session.keeps_watchlist_row()(kept[k]));
    assert(raw.contains(kept[k]));
    let i = choose|i: int| 0 <= i < raw.len() && raw[i] == kept[k];
    assert(symbols[i] == row.0);
}

/// Removing the selected row of the watchlist view takes exactly its symbol
/// away. The symbol is gone from the active watchlist and from the quote
/// cache, every other symbol and every other quote stays, the watchlist and
/// the view are each one row shorter, and the view stays in order: no symbol
/// twice, the selection on a row. From the last of two or more rows the
/// selection moves to the row before it.
pub proof fn lemma_remove_selected_removes_the_row(session: AppModel)
    requires
        session.watchlist_ok(),
        session.selected_watchlist_symbol().is_some(),
    ensures
        ({
            let symbol = session.selected_watchlist_symbol().unwrap();
            let before = session.config.current_watchlist().symbols;
            let after = session.remove_selected();
            let left = after.config.current_watchlist().symbols;
            &&& !left.contains(symbol)
            &&& !after.quotes.contains_key(symbol)
            &&& forall|i: int|
                0 <= i < before.len() && before[i] != symbol ==> left.contains(#[trigger] before[i])
            &&& forall|i: int| 0 <= i < left.len() ==> before.contains(#[trigger] left[i])
            &&& forall|key: Seq<char>|
                key != symbol ==> quote_of(after.quotes, key) == quote_of(session.quotes, key)
            &&& left.len() + 1 == before.len()
            &&& after.filtered_watchlist().len() + 1 == session.filtered_watchlist().len()
            &&& after.watchlist_ok()
            &&& after.needs_save
            &&& session.filtered_watchlist().len() >= 2 && session.selected_index + 1
                == session.filtered_watchlist().len() ==> after.selected_index + 2
                == session.filtered_watchlist().len()
        }),
{
    let symbol = session.selected_watchlist_symbol().unwrap();
    let before = session.config.current_watchlist().symbols;
    let after = session.remove_selected();
    let other = crate::config::other_than(symbol);
    let removed = AppModel {
        config: session.config.remove_stock(symbol),
        quotes: session.quotes.remove(symbol),
        needs_save: true,
        status_message: Some("Removed "@ + symbol),
        ..session
    };
    lemma_selected_symbol_is_listed(session);
    lemma_remove_stock_keeps_unique(session.config, symbol);
    lemma_keep_where(before, other);
    assert(session.keeps_symbol()(symbol));
    lemma_keep_where_without_member(before, symbol, other, session.keeps_symbol());
    lemma_watchlist_row_count(session);
    lemma_watchlist_row_count(removed);
    lemma_watchlist_row_count(after);
    assert(removed.keeps_symbol() =~= session.keeps_symbol());
    assert(after.keeps_symbol() =~= session.keeps_symbol());
    assert(after.config.current_watchlist().symbols == keep_where(before, other));
    assert forall|i: int| 0 <= i < before.len() && before[i] != symbol implies keep_where(
        before,
        other,
    ).contains(#[trigger] before[i]) by {
        assert(other(before[i]));
    }
}

/// Removing the selected symbol keeps the watchlist view in order: no
/// symbol twice, the selection on a row.
pub proof fn lemma_remove_selected_keeps_watchlist_ok(session: AppModel)
    requires
        session.watchlist_ok(),
    ensures
        session.remove_selected().watchlist_ok(),
{
    if session.selected_watchlist_symbol().is_some() {
        lemma_remove_selected_removes_the_row(session);
    }
}

/// Moving the selection in the watchlist view keeps it on a row.
pub proof fn lemma_moves_keep_watchlist_ok(session: AppModel)
    requires
        session.watchlist_ok(),
        session.view_mode == ViewMode::Watchlist,
    ensures
        session.select_row(moved_up(session.selected_index)).watchlist_ok(),
        session.select_row(
            moved_down(session.selected_index, session.filtered_watchlist().len()),
        ).watchlist_ok(),
{
    let up = session.select_row(moved_up(session.selected_index));
    let down = session.select_row(
        moved_down(session.selected_index, session.filtered_watchlist().len()),
    );
    assert(up.filtered_watchlist() == session.filtered_watchlist()) by {
        assert(up.keeps_watchlist_row() =~= session.keeps_watchlist_row());
        assert(up.raw_watchlist() =~= session.raw_watchlist());
        if session.watchlist_sort_column.is_some() {
            assert(up.watchlist_order(session.watchlist_sort_column.unwrap())
                =~= session.watchlist_order(session.watchlist_sort_column.unwrap()));
        }
    }
    assert(down.filtered_watchlist() == session.filtered_watchlist()) by {
        assert(down.keeps_watchlist_row() =~= session.keeps_watchlist_row());
        assert(down.raw_watchlist() =~= session.raw_watchlist());
        if session.watchlist_sort_column.is_some() {
            assert(down.watchlist_order(session.watchlist_sort_column.unwrap())
                =~= session.watchlist_order(session.watchlist_sort_column.unwrap()));
        }
    }
}

/// One change of the watchlist view: a symbol is typed and confirmed, the
/// selected symbol is removed, or the selection moves.
pub enum WatchlistChange {
    Add(Seq<char>),
    RemoveSelected,
    MoveUp,
    MoveDown,
}

/// The session after one change of the watchlist view.
pub open spec fn after_change(session: AppModel, change: WatchlistChange) -> AppModel {
    match change {
        WatchlistChange::Add(typed) => AppModel { input_buffer: typed, ..session }.confirm_add(),
        WatchlistChange::RemoveSelected => session.remove_selected(),
        WatchlistChange::MoveUp => session.select_row(moved_up(session.selected_index)),
        WatchlistChange::MoveDown => session.select_row(
            moved_down(session.selected_index, session.filtered_watchlist().len()),
        ),
    }
}

/// The session after a run of changes of the watchlist view.
pub open spec fn after_changes(session: AppModel, changes: Seq<WatchlistChange>) -> AppModel
    decreases changes.len(),
{
    if changes.len() == 0 {
        session
    } else {
        after_change(after_changes(session, changes.drop_last()), changes.last())
    }
}

/// Whatever symbols are added and removed in the watchlist view, in
/// whatever order, and however the selection moves in between: no symbol is
/// twice in the watchlist, and the selection stays on a row of the view.
pub proof fn lemma_watchlist_changes_keep_order(session: AppModel, changes: Seq<WatchlistChange>)
    requires
        session.watchlist_ok(),
        session.view_mode == ViewMode::Watchlist,
    ensures
        after_changes(session, changes).watchlist_ok(),
        after_changes(session, changes).view_mode == ViewMode::Watchlist,
    decreases changes.len(),
{
    if changes.len() > 0 {
        lemma_watchlist_changes_keep_order(session, changes.drop_last());
        let before = after_changes(session, changes.drop_last());
        match changes.last() {
            WatchlistChange::Add(typed) => {
                let typing = AppModel { input_buffer: typed, ..before };
                assert(typing.filtered_watchlist() == before.filtered_watchlist()) by {
                    assert(typing.keeps_watchlist_row() =~= before.keeps_watchlist_row());
                    assert(typing.raw_watchlist() =~= before.raw_watchlist());
                    if before.watchlist_sort_column.is_some() {
                        assert(typing.watchlist_order(before.watchlist_sort_column.unwrap())
                            =~= before.watchlist_order(before.watchlist_sort_column.unwrap()));
                    }
                }
                lemma_confirm_add_keeps_watchlist_ok(typing);
            },
            WatchlistChange::RemoveSelected => {
                lemma_remove_selected_keeps_watchlist_ok(before);
            },
            WatchlistChange::MoveUp => {
                lemma_moves_keep_watchlist_ok(before);
            },
            WatchlistChange::MoveDown => {
                lemma_moves_keep_watchlist_ok(before);
            },
        }
    }
}

/// Buying a symbol that the portfolio does not hold in two lots gives the
/// same holding whichever lot comes first: the lots add up and the price is
/// the lot-weighted average. (With no lots at all there is nothing to
/// weigh, and the price of the first call stands.)
pub proof fn lemma_add_holding_commutes(
    config: ConfigModel,
    symbol: Seq<char>,
    lots_a: u32,
    price_a: u64,
    lots_b: u32,
    price_b: u64,
)
    requires
        config.wf(),
        config.holding_index(symbol) >= config.current_portfolio().holdings.len(),
        lots_a + lots_b <= u32::MAX,
        lots_a + lots_b > 0,
    ensures
        config.add_holding(symbol, lots_a, price_a).add_holding(symbol, lots_b, price_b)
            == config.add_holding(symbol, lots_b, price_b).add_holding(symbol, lots_a, price_a),
        config.add_holding(symbol, lots_a, price_a).add_holding_accepted(symbol, lots_b),
{
    reveal(ConfigModel::add_holding);
    reveal(ConfigModel::add_holding_accepted);
    let holdings = config.current_portfolio().holdings;
    let pred = |h: HoldingModel| h.symbol == symbol;
    lemma_first_where(holdings, pred);
    let first_a = config.add_holding(symbol, lots_a, price_a);
    let first_b = config.add_holding(symbol, lots_b, price_b);
    let with_a = holdings.push(HoldingModel { symbol, lots: lots_a, avg_price: price_a });
    let with_b = holdings.push(HoldingModel { symbol, lots: lots_b, avg_price: price_b });
    assert(first_a.current_portfolio().holdings == with_a);
    assert(first_b.current_portfolio().holdings == with_b);
    assert forall|k: int| 0 <= k < holdings.len() implies !pred(#[trigger] with_a[k]) by {
        assert(with_a[k] == holdings[k]);
    }
    assert forall|k: int| 0 <= k < holdings.len() implies !pred(#[trigger] with_b[k]) by {
        assert(with_b[k] == holdings[k]);
    }
    lemma_first_where_is(with_a, pred, holdings.len() as int);
    lemma_first_where_is(with_b, pred, holdings.len() as int);
    lemma_merged_average_symmetric(lots_a, price_a, lots_b, price_b);
    crate::config::lemma_merged_average_bounds(lots_a, price_a, lots_b, price_b);
    let merged_ab = with_a.update(
        holdings.len() as int,
        HoldingModel {
            symbol,
            lots: (lots_a + lots_b) as u32,
            avg_price: crate::config::merged_average(lots_a, price_a, lots_b, price_b) as u64,
        },
    );
    let merged_ba = with_b.update(
        holdings.len() as int,
        HoldingModel {
            symbol,
            lots: (lots_b + lots_a) as u32,
            avg_price: crate::config::merged_average(lots_b, price_b, lots_a, price_a) as u64,
        },
    );
    assert(merged_ab =~= merged_ba);
    assert(first_a.portfolios.update(
        config.active_portfolio as int,
        crate::config::PortfolioModel { holdings: merged_ab, ..first_a.current_portfolio() },
    ) =~= first_b.portfolios.update(
        config.active_portfolio as int,
        crate::config::PortfolioModel { holdings: merged_ba, ..first_b.current_portfolio() },
    ));
}

/// A purchase that would take the lots of a holding over the largest
/// 32-bit number is refused and changes nothing.
pub proof fn lemma_add_holding_overflow_rejected(
    config: ConfigModel,
    symbol: Seq<char>,
    lots: u32,
    price: u64,
)
    requires
        config.wf(),
        config.holding_index(symbol) < config.current_portfolio().holdings.len(),
        config.current_portfolio().holdings[config.holding_index(symbol)].lots + lots > u32::MAX,
    ensures
        !config.add_holding_accepted(symbol, lots),
        config.add_holding(symbol, lots, price) == config,
{
    reveal(ConfigModel::add_holding);
    reveal(ConfigModel::add_holding_accepted);
}

/// An alert that is switched off fires on no quote at no time.
pub proof fn lemma_disabled_alert_never_fires(
    quotes: Map<Seq<char>, StockQuoteModel>,
    alert: AlertModel,
    now: u64,
)
    requires
        !alert.enabled,
    ensures
        !alert_fires(quotes, alert, now),
{
}

/// The alerts that fire at time `now` on the quotes at hand.
pub open spec fn fired_alerts(
    quotes: Map<Seq<char>, StockQuoteModel>,
    alerts: Seq<AlertModel>,
    now: u64,
) -> Seq<AlertModel> {
    keep_where(alerts, |a: AlertModel| alert_fires(quotes, a, now))
}

/// The engine reports as many alerts as fire, every alert that fires is
/// switched on, and where every alert is switched off the engine reports
/// nothing, whatever the quotes are.
pub proof fn lemma_reports_are_for_fired_alerts(
    quotes: Map<Seq<char>, StockQuoteModel>,
    alerts: Seq<AlertModel>,
    now: u64,
)
    ensures
        triggered_of(quotes, alerts, now).len() == fired_alerts(quotes, alerts, now).len(),
        forall|i: int|
            0 <= i < fired_alerts(quotes, alerts, now).len() ==> (#[trigger] fired_alerts(
                quotes,
                alerts,
                now,
            )[i]).enabled,
        (forall|i: int| 0 <= i < alerts.len() ==> !(#[trigger] alerts[i]).enabled)
            ==> triggered_of(quotes, alerts, now).len() == 0,
    decreases alerts.len(),
{
    let fired = |a: AlertModel| alert_fires(quotes, a, now);
    lemma_keep_where(alerts, fired);
    if alerts.len() > 0 {
        lemma_reports_are_for_fired_alerts(quotes, alerts.drop_last(), now);
        if forall|i: int| 0 <= i < alerts.len() ==> !(#[trigger] alerts[i]).enabled {
            assert forall|i: int| 0 <= i < alerts.drop_last().len() implies !(
            #[trigger] alerts.drop_last()[i]).enabled by {
                assert(alerts.drop_last()[i] == alerts[i]);
            }
            assert(!alerts[alerts.len() - 1].enabled);
        }
    }
}

/// An alert that fired in a pass of the engine at time `fired_at` does not
/// fire again before its cooldown is over, whatever the quotes are then.
pub proof fn lemma_no_refire_within_cooldown(
    quotes: Map<Seq<char>, StockQuoteModel>,
    alerts: Seq<AlertModel>,
    fired_at: u64,
    later_quotes: Map<Seq<char>, StockQuoteModel>,
    now: u64,
    i: int,
)
    requires
        0 <= i < alerts.len(),
        alert_fires(quotes, alerts[i], fired_at),
        fired_at <= now < fired_at + alerts[i].cooldown_seconds,
    ensures
        !alert_fires(later_quotes, stamped_of(quotes, alerts, fired_at)[i], now),
{
}

/// The order of the watchlist view in a column can order rows.
pub proof fn lemma_watchlist_order_is_total_preorder(session: AppModel, col: usize)
    ensures
        is_total_preorder(session.watchlist_order(col)),
{
    let le = session.watchlist_order(col);
    assert forall|a: (Seq<char>, Option<StockQuoteModel>), b: (Seq<char>, Option<StockQuoteModel>)|
        #[trigger] le(a, b) || #[trigger] le(b, a) by {
        if a.1.is_some() && b.1.is_some() {
            let ka = quote_key(col, a.1.unwrap());
            let kb = quote_key(col, b.1.unwrap());
            lemma_directed_order(ka, kb, ka, session.watchlist_sort_direction);
        }
    }
    assert forall|
        a: (Seq<char>, Option<StockQuoteModel>),
        b: (Seq<char>, Option<StockQuoteModel>),
        c: (Seq<char>, Option<StockQuoteModel>),
    | #[trigger] le(a, b) && #[trigger] le(b, c) implies le(a, c) by {
        if a.1.is_some() && b.1.is_some() && c.1.is_some() {
            let ka = quote_key(col, a.1.unwrap());
            let kb = quote_key(col, b.1.unwrap());
            let kc = quote_key(col, c.1.unwrap());
            lemma_directed_order(ka, kb, kc, session.watchlist_sort_direction);
        }
    }
}

/// The order of the portfolio view in a column can order rows.
pub proof fn lemma_portfolio_order_is_total_preorder(session: AppModel, col: usize)
    ensures
        is_total_preorder(session.portfolio_order(col)),
{
    let le = session.portfolio_order(col);
    assert forall|a: (usize, HoldingModel), b: (usize, HoldingModel)| #[trigger] le(a, b)
        || #[trigger] le(b, a) by {
        let ka = holding_key(col, a.1, session.quotes);
        let kb = holding_key(col, b.1, session.quotes);
        lemma_directed_order(ka, kb, ka, session.portfolio_sort_direction);
    }
    assert forall|a: (usize, HoldingModel), b: (usize, HoldingModel), c: (usize, HoldingModel)|
        #[trigger] le(a, b) && #[trigger] le(b, c) implies le(a, c) by {
        let ka = holding_key(col, a.1, session.quotes);
        let kb = holding_key(col, b.1, session.quotes);
        let kc = holding_key(col, c.1, session.quotes);
        lemma_directed_order(ka, kb, kc, session.portfolio_sort_direction);
    }
}

/// The order of the news feed can order rows.
pub proof fn lemma_news_order_is_total_preorder(session: AppModel)
    ensures
        is_total_preorder(session.news_order()),
{
    let le = session.news_order();
    let (col, direction) = effective_sort(session.news_sort_column, session.news_sort_direction);
    assert forall|a: NewsItemModel, b: NewsItemModel| #[trigger] le(a, b) || #[trigger] le(
        b,
        a,
    ) by {
        lemma_directed_order(news_key(col, a), news_key(col, b), news_key(col, a), direction);
    }
    assert forall|a: NewsItemModel, b: NewsItemModel, c: NewsItemModel| #[trigger] le(a, b)
        && #[trigger] le(b, c) implies le(a, c) by {
        lemma_directed_order(news_key(col, a), news_key(col, b), news_key(col, c), direction);
    }
}

/// The order of the bookmark list can order rows.
pub proof fn lemma_bookmark_order_is_total_preorder(session: AppModel)
    ensures
        is_total_preorder(session.bookmark_order()),
{
    let le = session.bookmark_order();
    let (col, direction) = effective_sort(
        session.bookmark_sort_column,
        session.bookmark_sort_direction,
    );
    assert forall|a: BookmarkModel, b: BookmarkModel| #[trigger] le(a, b) || #[trigger] le(
        b,
        a,
    ) by {
        lemma_directed_order(
            bookmark_key(col, a),
            bookmark_key(col, b),
            bookmark_key(col, a),
            direction,
        );
    }
    assert forall|a: BookmarkModel, b: BookmarkModel, c: BookmarkModel| #[trigger] le(a, b)
        && #[trigger] le(b, c) implies le(a, c) by {
        lemma_directed_order(
            bookmark_key(col, a),
            bookmark_key(col, b),
            bookmark_key(col, c),
            direction,
        );
    }
}

/// In each of the four views, filtering and sorting the rows that the view
/// shows, by the view's own search and order, gives those rows again.
pub proof fn lemma_view_rows_are_stable(session: AppModel)
    ensures
        session.watchlist_sort_column.is_some() ==> stable_sort(
            keep_where(session.filtered_watchlist(), session.keeps_watchlist_row()),
            session.watchlist_order(session.watchlist_sort_column.unwrap()),
        ) == session.filtered_watchlist(),
        session.watchlist_sort_column.is_none() ==> keep_where(
            session.filtered_watchlist(),
            session.keeps_watchlist_row(),
        ) == session.filtered_watchlist(),
        session.portfolio_sort_column.is_some() ==> stable_sort(
            keep_where(session.filtered_portfolio(), session.keeps_portfolio_row()),
            session.portfolio_order(session.portfolio_sort_column.unwrap()),
        ) == session.filtered_portfolio(),
        session.portfolio_sort_column.is_none() ==> keep_where(
            session.filtered_portfolio(),
            session.keeps_portfolio_row(),
        ) == session.filtered_portfolio(),
        stable_sort(
            keep_where(session.filtered_news(), session.keeps_news_row()),
            session.news_order(),
        ) == session.filtered_news(),
        stable_sort(
            keep_where(session.filtered_bookmarks(), session.keeps_bookmark_row()),
            session.bookmark_order(),
        ) == session.filtered_bookmarks(),
{
    match session.watchlist_sort_column {
        Some(col) => {
            lemma_watchlist_order_is_total_preorder(session, col);
            lemma_filter_then_sort_idempotent(
                session.raw_watchlist(),
                session.keeps_watchlist_row(),
                session.watchlist_order(col),
            );
        },
        None => {
            crate::rows::lemma_keep_where_idempotent(
                session.raw_watchlist(),
                session.keeps_watchlist_row(),
            );
        },
    }
    match session.portfolio_sort_column {
        Some(col) => {
            lemma_portfolio_order_is_total_preorder(session, col);
            lemma_filter_then_sort_idempotent(
                session.raw_portfolio(),
                session.keeps_portfolio_row(),
                session.portfolio_order(col),
            );
        },
        None => {
            crate::rows::lemma_keep_where_idempotent(
                session.raw_portfolio(),
                session.keeps_portfolio_row(),
            );
        },
    }
    lemma_news_order_is_total_preorder(session);
    lemma_filter_then_sort_idempotent(
        session.news_items,
        session.keeps_news_row(),
        session.news_order(),
    );
    lemma_bookmark_order_is_total_preorder(session);
    lemma_filter_then_sort_idempotent(
        session.config.bookmarks,
        session.keeps_bookmark_row(),
        session.bookmark_order(),
    );
}

/// Whether no two holdings are of one symbol.
pub open spec fn holdings_unique(holdings: Seq<HoldingModel>) -> bool {
    forall|i: int, j: int|
        0 <= i < holdings.len() && 0 <= j < holdings.len() && i != j ==> (
        #[trigger] holdings[i]).symbol != (#[trigger] holdings[j]).symbol
}

/// Whether no two bookmarks are of one article.
pub open spec fn bookmarks_unique(bookmarks: Seq<BookmarkModel>) -> bool {
    forall|i: int, j: int|
        0 <= i < bookmarks.len() && 0 <= j < bookmarks.len() && i != j ==> !(
        #[trigger] bookmarks[i]).is_article(
            (#[trigger] bookmarks[j]).headline,
            bookmarks[j].url,
        )
}

/// A purchase keeps the holdings of the active portfolio unique by symbol.
pub proof fn lemma_add_holding_keeps_unique(
    config: ConfigModel,
    symbol: Seq<char>,
    lots: u32,
    price: u64,
)
    requires
        config.wf(),
        holdings_unique(config.current_portfolio().holdings),
    ensures
        config.add_holding(symbol, lots, price).wf(),
        holdings_unique(config.add_holding(symbol, lots, price).current_portfolio().holdings),
{
    reveal(ConfigModel::add_holding);
    let holdings = config.current_portfolio().holdings;
    let pred = |h: HoldingModel| h.symbol == symbol;
    lemma_first_where(holdings, pred);
    let i = config.holding_index(symbol);
    let after = config.add_holding(symbol, lots, price).current_portfolio().holdings;
    if i >= holdings.len() {
        assert(after == holdings.push(HoldingModel { symbol, lots, avg_price: price }));
        assert forall|a: int, b: int| 0 <= a < after.len() && 0 <= b < after.len() && a
            != b implies (#[trigger] after[a]).symbol != (#[trigger] after[b]).symbol by {
            if a < holdings.len() && b < holdings.len() {
                assert(holdings[a].symbol != holdings[b].symbol);
            } else if a < holdings.len() {
                assert(!pred(holdings[a]));
            } else {
                assert(!pred(holdings[b]));
            }
        }
    } else if holdings[i].lots + lots <= u32::MAX {
        assert forall|a: int, b: int| 0 <= a < after.len() && 0 <= b < after.len() && a
            != b implies (#[trigger] after[a]).symbol != (#[trigger] after[b]).symbol by {
            assert(after[a].symbol == holdings[a].symbol);
            assert(after[b].symbol == holdings[b].symbol);
        }
    }
}

/// Adding a bookmark keeps the bookmarks unique by article: an article that
/// is bookmarked is not bookmarked again.
pub proof fn lemma_add_bookmark_keeps_unique(config: ConfigModel, bookmark: BookmarkModel)
    requires
        bookmarks_unique(config.bookmarks),
    ensures
        bookmarks_unique(config.add_bookmark(bookmark).bookmarks),
        config.add_bookmark(bookmark).is_bookmarked(bookmark.headline, bookmark.url),
{
    let before = config.bookmarks;
    let after = config.add_bookmark(bookmark).bookmarks;
    if !config.is_bookmarked(bookmark.headline, bookmark.url) {
        assert(after == before.push(bookmark));
        assert(after[before.len() as int].is_article(bookmark.headline, bookmark.url));
        assert forall|i: int, j: int| 0 <= i < after.len() && 0 <= j < after.len() && i
            != j implies !(#[trigger] after[i]).is_article(
            (#[trigger] after[j]).headline,
            after[j].url,
        ) by {
            if i < before.len() && j < before.len() {
                assert(!before[i].is_article(before[j].headline, before[j].url));
            } else if i < before.len() {
                assert(!before[i].is_article(bookmark.headline, bookmark.url));
            } else {
                assert(!before[j].is_article(bookmark.headline, bookmark.url));
            }
        }
    } else {
        let k = choose|k: int|
            0 <= k < before.len() && (#[trigger] before[k]).is_article(
                bookmark.headline,
                bookmark.url,
            );
        assert(after[k].is_article(bookmark.headline, bookmark.url));
    }
}

/// Whether every text of `more` is in `s`.
pub open spec fn has_all(s: Seq<Seq<char>>, more: Seq<Seq<char>>) -> bool {
    forall|i: int| 0 <= i < more.len() ==> s.contains(#[trigger] more[i])
}

/// Adding what is missing adds nothing but texts of `more`, keeps what was
/// there in its place, and leaves nothing of `more` missing.
pub proof fn lemma_with_missing(s: Seq<Seq<char>>, more: Seq<Seq<char>>)
    ensures
        s.len() <= crate::config::migrate::with_missing(s, more).len(),
        crate::config::migrate::with_missing(s, more).take(s.len() as int) == s,
        forall|k: int|
            s.len() <= k < crate::config::migrate::with_missing(s, more).len() ==> more.contains(
                #[trigger] crate::config::migrate::with_missing(s, more)[k],
            ),
        has_all(crate::config::migrate::with_missing(s, more), more),
    decreases more.len(),
{
    let all = crate::config::migrate::with_missing(s, more);
    if more.len() == 0 {
        assert(all.take(s.len() as int) =~= s);
    } else {
        let init = more.drop_last();
        let front = crate::config::migrate::with_missing(s, init);
        lemma_with_missing(s, init);
        assert(all.take(s.len() as int) =~= front.take(s.len() as int));
        assert forall|k: int| s.len() <= k < all.len() implies more.contains(#[trigger] all[k]) by {
            if k < front.len() {
                let j = choose|j: int| 0 <= j < init.len() && init[j] == front[k];
                assert(more[j] == all[k]);
            } else {
                assert(more[more.len() - 1] == all[k]);
            }
        }
        assert forall|i: int| 0 <= i < more.len() implies all.contains(#[trigger] more[i]) by {
            if i < init.len() {
                assert(front.contains(init[i]));
                let j = choose|j: int| 0 <= j < front.len() && front[j] == init[i];
                assert(all[j] == more[i]);
            } else if front.contains(more.last()) {
            } else {
                assert(all[front.len() as int] == more[i]);
            }
        }
    }
}

/// Where nothing of `more` is missing, adding what is missing changes
/// nothing.
pub proof fn lemma_with_missing_nothing(s: Seq<Seq<char>>, more: Seq<Seq<char>>)
    requires
        has_all(s, more),
    ensures
        crate::config::migrate::with_missing(s, more) == s,
    decreases more.len(),
{
    if more.len() > 0 {
        let init = more.drop_last();
        assert forall|i: int| 0 <= i < init.len() implies s.contains(#[trigger] init[i]) by {
            assert(init[i] == more[i]);
        }
        lemma_with_missing_nothing(s, init);
        assert(s.contains(more[more.len() - 1]));
    }
}

/// A store that was brought into shape is in shape: bringing it into shape
/// once more changes nothing, so that a file is migrated at most once.
pub proof fn lemma_migration_is_idempotent(config: ConfigModel)
    ensures
        config.migrated().wf(),
        config.migrated().migrated() == config.migrated(),
        config.migrated().portfolio.len() == 0,
        config.migrated().live_news_sources() == config.migrated().news_sources,
{
    let once = config.migrated();
    let dead = crate::config::migrate::dead_news_source();
    let defaults = crate::config::default_news_source_texts();
    let alive = |u: Seq<char>| u != dead;
    let live = config.live_news_sources();
    assert(config.ensure_watchlist().migrate_portfolio().live_news_sources() == live);
    lemma_keep_where(config.news_sources, alive);
    lemma_with_missing(live, defaults);
    assert forall|i: int| 0 <= i < defaults.len() implies alive(#[trigger] defaults[i]) by {
        reveal_strlit("https://www.kontan.co.id/rss/investasi");
        reveal_strlit("https://www.cnbcindonesia.com/market/rss");
        reveal_strlit("https://www.cnbcindonesia.com/news/rss");
        reveal_strlit("https://www.idxchannel.com/rss");
        reveal_strlit("https://rss.tempo.co/bisnis");
        assert(defaults[i].len() != dead.len() || defaults[i][8] != dead[8] || defaults[i][12]
            != dead[12]);
    }
    assert forall|k: int| 0 <= k < once.news_sources.len() implies alive(
        #[trigger] once.news_sources[k],
    ) by {
        if k < live.len() {
            assert(once.news_sources.take(live.len() as int)[k] == live[k]);
        } else {
            let j = choose|j: int| 0 <= j < defaults.len() && defaults[j] == once.news_sources[k];
            assert(alive(defaults[j]));
        }
    }
    crate::rows::lemma_keep_where_all(once.news_sources, alive);
    lemma_with_missing_nothing(once.news_sources, defaults);
    assert(once.ensure_watchlist() == once);
    assert(once.migrate_portfolio() == once);
}

/// Filtering keeps holdings unique by symbol.
pub proof fn lemma_keep_where_keeps_holdings_unique(
    s: Seq<HoldingModel>,
    pred: spec_fn(HoldingModel) -> bool,
)
    requires
        holdings_unique(s),
    ensures
        holdings_unique(keep_where(s, pred)),
    decreases s.len(),
{
    if s.len() > 0 {
        let init = s.drop_last();
        assert(holdings_unique(init)) by {
            assert forall|i: int, j: int| 0 <= i < init.len() && 0 <= j < init.len() && i
                != j implies (#[trigger] init[i]).symbol != (#[trigger] init[j]).symbol by {
                assert(init[i] == s[i] && init[j] == s[j]);
            }
        }
        lemma_keep_where_keeps_holdings_unique(init, pred);
        lemma_keep_where(init, pred);
        let k = keep_where(init, pred);
        if pred(s.last()) {
            let all = k.push(s.last());
            assert forall|i: int, j: int| 0 <= i < all.len() && 0 <= j < all.len() && i
                != j implies (#[trigger] all[i]).symbol != (#[trigger] all[j]).symbol by {
                if i < k.len() && j == k.len() {
                    assert(init.contains(k[i]));
                    let m = choose|m: int| 0 <= m < init.len() && init[m] == k[i];
                    assert(s[m].symbol != s[s.len() - 1].symbol);
                }
                if j < k.len() && i == k.len() {
                    assert(init.contains(k[j]));
                    let m = choose|m: int| 0 <= m < init.len() && init[m] == k[j];
                    assert(s[m].symbol != s[s.len() - 1].symbol);
                }
            }
        }
    }
}

/// Taking the holding of one symbol out of holdings that are unique by
/// symbol makes them one fewer, and where a test keeps that holding, what
/// the test keeps is one fewer too.
pub proof fn lemma_keep_where_without_holding(
    s: Seq<HoldingModel>,
    symbol: Seq<char>,
    pred: spec_fn(HoldingModel) -> bool,
)
    requires
        holdings_unique(s),
        exists|i: int| 0 <= i < s.len() && (#[trigger] s[i]).symbol == symbol && pred(s[i]),
    ensures
        keep_where(s, crate::config::held_other_than(symbol)).len() + 1 == s.len(),
        keep_where(keep_where(s, crate::config::held_other_than(symbol)), pred).len() + 1
            == keep_where(s, pred).len(),
    decreases s.len(),
{
    let other = crate::config::held_other_than(symbol);
    if s.len() > 0 {
        let init = s.drop_last();
        let at = choose|i: int| 0 <= i < s.len() && (#[trigger] s[i]).symbol == symbol && pred(s[i]);
        assert(holdings_unique(init)) by {
            assert forall|i: int, j: int| 0 <= i < init.len() && 0 <= j < init.len() && i
                != j implies (#[trigger] init[i]).symbol != (#[trigger] init[j]).symbol by {
                assert(init[i] == s[i] && init[j] == s[j]);
            }
        }
        if s.last().symbol == symbol {
            assert(at == s.len() - 1) by {
                if at != s.len() - 1 {
                    assert(s[at].symbol != s[s.len() - 1].symbol);
                }
            }
            assert forall|i: int| 0 <= i < init.len() implies other(#[trigger] init[i]) by {
                assert(init[i] == s[i]);
                assert(s[i].symbol != s[s.len() - 1].symbol);
            }
            crate::rows::lemma_keep_where_all(init, other);
        } else {
            assert(init[at].symbol == symbol && pred(init[at]));
            lemma_keep_where_without_holding(init, symbol, pred);
            assert(other(s.last()));
            assert(keep_where(s, other).drop_last() =~= keep_where(init, other));
        }
    }
}

/// Filtering rows that are made from keys and their places one by one keeps
/// as many rows as filtering the keys by the same test.
pub proof fn lemma_keep_where_of_placed_rows<A, B>(
    keys: Seq<A>,
    make: spec_fn(int, A) -> B,
    row_test: spec_fn(B) -> bool,
    key_test: spec_fn(A) -> bool,
)
    requires
        forall|i: int, a: A| key_test(a) == row_test(#[trigger] make(i, a)),
    ensures
        keep_where(Seq::new(keys.len(), |i: int| make(i, keys[i])), row_test).len() == keep_where(
            keys,
            key_test,
        ).len(),
    decreases keys.len(),
{
    if keys.len() > 0 {
        let rows = Seq::new(keys.len(), |i: int| make(i, keys[i]));
        let init = keys.drop_last();
        lemma_keep_where_of_placed_rows(init, make, row_test, key_test);
        assert(rows.drop_last() =~= Seq::new(init.len(), |i: int| make(i, init[i])));
        assert(rows.last() == make(keys.len() - 1, keys.last()));
        assert(key_test(keys.last()) == row_test(make(keys.len() - 1, keys.last())));
    }
}

impl AppModel {
    /// Whether the search keeps a holding, which goes by its symbol.
    pub open spec fn keeps_holding(self) -> spec_fn(HoldingModel) -> bool {
        |h: HoldingModel| search_hit(self.search_active, self.search_query, h.symbol)
    }

    /// What the portfolio view rests on: the active indices point at a
    /// watchlist and a portfolio, no two holdings of the active portfolio
    /// are of one symbol, and the selection points at a row of the view (at
    /// 0 where the view is empty).
    pub open spec fn portfolio_ok(self) -> bool {
        &&& self.config.wf()
        &&& holdings_unique(self.config.current_portfolio().holdings)
        &&& selection_in_range(self.portfolio_selected, self.filtered_portfolio().len())
    }
}

/// The portfolio view has as many rows as the active portfolio has holdings
/// that the search keeps.
pub proof fn lemma_portfolio_row_count(session: AppModel)
    ensures
        session.filtered_portfolio().len() == keep_where(
            session.config.current_portfolio().holdings,
            session.keeps_holding(),
        ).len(),
{
    let holdings = session.config.current_portfolio().holdings;
    let make = |i: int, h: HoldingModel| (i as usize, h);
    assert(session.raw_portfolio() =~= Seq::new(holdings.len(), |i: int| make(i, holdings[i])));
    lemma_keep_where_of_placed_rows(
        holdings,
        make,
        session.keeps_portfolio_row(),
        session.keeps_holding(),
    );
    let rows = keep_where(session.raw_portfolio(), session.keeps_portfolio_row());
    match session.portfolio_sort_column {
        Some(col) => {
            lemma_stable_sort_permutes(rows, session.portfolio_order(col));
        },
        None => {},
    }
}

/// The symbol of the selected portfolio row is that of a holding of the
/// active portfolio which the search keeps.
pub proof fn lemma_selected_holding_is_held(session: AppModel)
    requires
        session.selected_portfolio_symbol().is_some(),
    ensures
        exists|i: int|
            0 <= i < session.config.current_portfolio().holdings.len() && (
            #[trigger] session.config.current_portfolio().holdings[i]).symbol
                == session.selected_portfolio_symbol().unwrap() && session.keeps_holding()(
                session.config.current_portfolio().holdings[i],
            ),
{
    broadcast use vstd::seq_lib::group_to_multiset_ensures;

    let holdings = session.config.current_portfolio().holdings;
    let raw = session.raw_portfolio();
    let kept = keep_where(raw, session.keeps_portfolio_row());
    let rows = session.filtered_portfolio();
    let row = rows[session.portfolio_selected as int];
    lemma_keep_where(raw, session.keeps_portfolio_row());
    match session.portfolio_sort_column {
        Some(col) => {
            lemma_stable_sort_permutes(kept, session.portfolio_order(col));
            assert(rows.to_multiset().count(row) > 0);
            assert(kept.to_multiset().count(row) > 0);
        },
        None => {},
    }
    assert(kept.contains(row));
    let k = choose|k: int| 0 <= k < kept.len() && kept[k] == row;
    assert(session.keeps_portfolio_row()(kept[k]));
    assert(raw.contains(kept[k]));
    let i = choose|i: int| 0 <= i < raw.len() && raw[i] == kept[k];
    assert(holdings[i] == row.1);
    assert(session.keeps_holding()(holdings[i]));
}

/// Removing the selected row of the portfolio view takes exactly its
/// holding away. No holding of its symbol is left, its quote is gone from
/// the cache, every other holding and every other quote stays, the
/// portfolio and the view are each one row shorter, and the view stays in
/// order: no symbol twice, the selection on a row.
pub proof fn lemma_remove_selected_holding_removes_the_row(session: AppModel)
    requires
        session.portfolio_ok(),
        session.selected_portfolio_symbol().is_some(),
    ensures
        ({
            let symbol = session.selected_portfolio_symbol().unwrap();
            let before = session.config.current_portfolio().holdings;
            let after = session.remove_selected_holding();
            let left = after.config.current_portfolio().holdings;
            &&& forall|i: int| 0 <= i < left.len() ==> (#[trigger] left[i]).symbol != symbol
            &&& !after.quotes.contains_key(symbol)
            &&& forall|i: int|
                0 <= i < before.len() && before[i].symbol != symbol ==> left.contains(
                    #[trigger] before[i],
                )
            &&& forall|i: int| 0 <= i < left.len() ==> before.contains(#[trigger] left[i])
            &&& forall|key: Seq<char>|
                key != symbol ==> quote_of(after.quotes, key) == quote_of(session.quotes, key)
            &&& left.len() + 1 == before.len()
            &&& after.filtered_portfolio().len() + 1 == session.filtered_portfolio().len()
            &&& after.portfolio_ok()
            &&& after.needs_save
        }),
{
    let symbol = session.selected_portfolio_symbol().unwrap();
    let before = session.config.current_portfolio().holdings;
    let after = session.remove_selected_holding();
    let other = crate::config::held_other_than(symbol);
    let removed = AppModel {
        config: session.config.remove_holding(symbol),
        quotes: session.quotes.remove(symbol),
        needs_save: true,
        status_message: Some("Removed "@ + symbol),
        ..session
    };
    lemma_selected_holding_is_held(session);
    lemma_keep_where(before, other);
    lemma_keep_where_keeps_holdings_unique(before, other);
    lemma_keep_where_without_holding(before, symbol, session.keeps_holding());
    lemma_portfolio_row_count(session);
    lemma_portfolio_row_count(removed);
    lemma_portfolio_row_count(after);
    assert(removed.keeps_holding() =~= session.keeps_holding());
    assert(after.keeps_holding() =~= session.keeps_holding());
    assert(after.config.current_portfolio().holdings == keep_where(before, other));
    assert forall|i: int| 0 <= i < before.len() && before[i].symbol != symbol implies keep_where(
        before,
        other,
    ).contains(#[trigger] before[i]) by {
        assert(other(before[i]));
    }
    assert forall|i: int| 0 <= i < keep_where(before, other).len() implies (
    #[trigger] keep_where(before, other)[i]).symbol != symbol by {
        assert(other(keep_where(before, other)[i]));
    }
}

} // verus!
