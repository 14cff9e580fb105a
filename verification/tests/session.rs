use idx_cli::api::news::{merge_feeds, news_from_entries, publisher_from_url, FeedEntry};
use idx_cli::api::yahoo::{
    display_symbol, extract_crumb, quotes_from_results, to_yahoo_symbol, QuoteFields,
};
use idx_cli::api::{ChartData, NewsItem, StockQuote};
use idx_cli::app::events::{decide_key, Action, Command, Key};
use idx_cli::app::scheduler::Work;
use idx_cli::app::{App, ExportFormat, ExportScope, InputMode, NewsTab, SortDirection, ViewMode};
use idx_cli::config::{default_portfolios, Alert, AlertType, Config, Holding, Watchlist};
use idx_cli::number::{amount_string, parse_amount, parse_u32};
use idx_cli::quotes::QuoteCache;
use idx_cli::text::{contains, trim};
use idx_cli::ui::news_detail::{strip_tag_content, word_wrap};
use idx_cli::ui::tables::{column_constraints, header_label, visible_columns, ColumnDef, ColumnWidth};

fn fx(v: f64) -> u64 {
    (v * 10_000.0).round() as u64
}

fn fxi(v: f64) -> i64 {
    (v * 10_000.0).round() as i64
}

fn quote(symbol: &str, price: f64, change_pct: f64) -> StockQuote {
    StockQuote {
        symbol: symbol.to_string(),
        short_name: format!("{} Corp", symbol),
        price: fx(price),
        change: 0,
        change_percent: fxi(change_pct),
        open: fx(price),
        high: fx(price),
        low: fx(price),
        volume: 1_000_000,
        prev_close: fx(price),
        long_name: None,
        sector: None,
        industry: None,
        market_cap: None,
        trailing_pe: None,
        dividend_yield: None,
        fifty_two_week_high: None,
        fifty_two_week_low: None,
        beta: None,
        average_volume: None,
    }
}

fn news(title: &str, publisher: &str, ts: i64) -> NewsItem {
    NewsItem {
        title: title.to_string(),
        publisher: publisher.to_string(),
        published_at: ts,
        url: Some(format!("https://example.com/{}", ts)),
        summary: None,
    }
}

fn config() -> Config {
    Config {
        watchlists: vec![Watchlist::default()],
        active_watchlist: 0,
        refresh_interval_secs: 1,
        portfolio: Vec::new(),
        portfolios: default_portfolios(),
        active_portfolio: 0,
        news_sources: vec!["https://rss.tempo.co/bisnis".to_string()],
        alerts: Vec::new(),
        bookmarks: Vec::new(),
    }
}

fn app() -> App {
    let mut app = App::new(config());
    app.table_viewport_height = 20;
    app
}

fn type_text(app: &mut App, text: &str) {
    for c in text.chars() {
        app.handle_key_at(Key::Char(c), 1_000);
    }
}

fn symbols(app: &App) -> Vec<String> {
    app.config.current_watchlist().symbols.clone()
}

// Whole flows.

#[test]
fn moving_down_stops_at_the_last_row() {
    let mut app = app();
    assert_eq!(symbols(&app), vec!["BBCA", "BBRI", "TLKM", "ASII"]);
    assert_eq!(app.selected_index, 0);
    app.move_down();
    app.move_down();
    app.move_down();
    assert_eq!(app.selected_index, 3);
    app.move_down();
    assert_eq!(app.selected_index, 3);
}

#[test]
fn two_purchases_merge_into_the_weighted_average() {
    let mut config = config();
    assert!(config.add_holding("BBCA", 100, fx(8000.0)));
    assert!(config.add_holding("BBCA", 100, fx(9000.0)));
    let holdings = &config.current_portfolio().holdings;
    assert_eq!(holdings.len(), 1);
    assert_eq!(holdings[0].lots, 200);
    assert_eq!(holdings[0].avg_price, fx(8500.0));
}

#[test]
fn alert_fires_once_and_then_cools_down() {
    let mut app = app();
    app.config.add_alert(Alert::new_at("BBCA", AlertType::Above, fxi(8000.0), 1_000));
    app.quotes.insert("BBCA".to_string(), quote("BBCA", 8001.0, 0.0));
    let first = app.check_alerts_at(2_000);
    assert_eq!(first.len(), 1);
    assert_eq!(first[0].0, "BBCA");
    assert!(first[0].1.contains("crossed above"));
    assert_eq!(first[0].1, "BBCA crossed above 8000");
    assert_eq!(app.config.alerts[0].last_triggered, Some(2_000));
    assert!(app.needs_save);
    let again = app.check_alerts_at(2_000 + 299);
    assert!(again.is_empty());
    let later = app.check_alerts_at(2_000 + 300);
    assert_eq!(later.len(), 1);
}

#[test]
fn fresh_quotes_run_the_alert_engine_once() {
    let mut app = app();
    app.config.add_alert(Alert::new_at("BBCA", AlertType::Below, fxi(100.0), 0));
    app.config.add_alert(Alert::new_at("TLKM", AlertType::Above, fxi(100.0), 0));
    app.loading = true;
    let failed = app.complete_refresh_at(Err("refused".to_string()), 500);
    assert!(failed.is_empty());
    assert!(!app.loading);
    assert!(!app.needs_save);
    let mut fresh = QuoteCache::new();
    fresh.insert("BBCA".to_string(), quote("BBCA", 99.5, 0.0));
    let fired = app.complete_refresh_at(Ok(fresh), 600);
    assert_eq!(fired, vec![("BBCA".to_string(), "BBCA crossed below 100".to_string())]);
    assert_eq!(app.config.alerts[0].last_triggered, Some(600));
    assert_eq!(app.config.alerts[1].last_triggered, None);
    assert!(app.needs_save);
    assert_eq!(app.status_message.as_deref(), Some("BBCA crossed below 100"));
    let mut quiet = QuoteCache::new();
    quiet.insert("BBCA".to_string(), quote("BBCA", 500.0, 0.0));
    assert!(app.complete_refresh_at(Ok(quiet), 700).is_empty());
    assert_eq!(app.status_message, None);
}

#[test]
fn search_keeps_matching_symbols_in_their_order() {
    let mut app = app();
    app.handle_key_at(Key::Char('/'), 0);
    assert_eq!(app.input_mode, InputMode::Search);
    type_text(&mut app, "bb");
    app.handle_key_at(Key::Enter, 0);
    assert_eq!(app.input_mode, InputMode::Normal);
    assert_eq!(app.search_query, "BB");
    let rows = app.get_filtered_watchlist();
    let shown: Vec<&str> = rows.iter().map(|(s, _)| s.as_str()).collect();
    assert_eq!(shown, vec!["BBCA", "BBRI"]);
}

// Properties on chosen values.

#[test]
fn watchlist_stays_free_of_duplicates() {
    let mut app = app();
    for typed in ["goto", "GOTO", " bbca ", "Goto"] {
        app.handle_key_at(Key::Char('a'), 0);
        assert_eq!(app.input_mode, InputMode::Adding);
        type_text(&mut app, typed.trim());
        app.handle_key_at(Key::Enter, 0);
    }
    assert_eq!(symbols(&app), vec!["BBCA", "BBRI", "TLKM", "ASII", "GOTO"]);
    app.selected_index = 4;
    app.handle_key_at(Key::Char('d'), 0);
    assert_eq!(symbols(&app), vec!["BBCA", "BBRI", "TLKM", "ASII"]);
    assert_eq!(app.selected_index, 3);
    for _ in 0..6 {
        app.handle_key_at(Key::Char('d'), 0);
        let len = symbols(&app).len();
        assert!(app.selected_index < len.max(1));
    }
    assert!(symbols(&app).is_empty());
    assert_eq!(app.selected_index, 0);
}

#[test]
fn add_holding_gives_one_average_in_either_order() {
    let mut first = config();
    first.add_holding("TLKM", 30, fx(3000.0));
    first.add_holding("TLKM", 70, fx(4000.0));
    let mut second = config();
    second.add_holding("TLKM", 70, fx(4000.0));
    second.add_holding("TLKM", 30, fx(3000.0));
    assert_eq!(first.portfolios[0].holdings[0].avg_price, fx(3700.0));
    assert_eq!(
        first.portfolios[0].holdings[0].avg_price,
        second.portfolios[0].holdings[0].avg_price
    );
    assert_eq!(second.portfolios[0].holdings[0].lots, 100);
}

#[test]
fn add_holding_rounds_the_average_down() {
    let mut config = config();
    config.add_holding("ASII", 1, 10_000);
    config.add_holding("ASII", 2, 10_001);
    // (1 * 100 * 10000 + 2 * 100 * 10001) / 300 = 10000.66..
    assert_eq!(config.portfolios[0].holdings[0].avg_price, 10_000);
}

#[test]
fn add_holding_refuses_lots_beyond_32_bits() {
    let mut config = config();
    assert!(config.add_holding("BBCA", u32::MAX, fx(1.0)));
    assert!(!config.add_holding("bbca", 1, fx(2.0)));
    assert_eq!(config.portfolios[0].holdings[0].lots, u32::MAX);
    assert_eq!(config.portfolios[0].holdings[0].avg_price, fx(1.0));
    assert!(config.add_holding("BBCA", 0, fx(2.0)));
}

#[test]
fn sort_column_cycle_passes_no_sort_once() {
    let mut app = app();
    let mut none_seen = 0;
    for _ in 0..11 {
        app.cycle_sort_column();
        if app.watchlist_sort_column.is_none() {
            none_seen += 1;
        }
    }
    assert_eq!(none_seen, 1);
    assert_eq!(app.watchlist_sort_column, None);
    app.toggle_sort_direction();
    app.toggle_sort_direction();
    assert_eq!(app.watchlist_sort_direction, SortDirection::Ascending);
}

#[test]
fn disabled_alert_is_never_reported() {
    let mut app = app();
    let mut alert = Alert::new_at("BBCA", AlertType::Below, fxi(9000.0), 5);
    alert.enabled = false;
    app.config.add_alert(alert);
    for price in [0.0, 1.0, 8999.0, 9000.0, 100_000.0] {
        app.quotes.insert("BBCA".to_string(), quote("BBCA", price, -50.0));
        assert!(app.check_alerts_at(1_000_000).is_empty());
    }
    assert!(!app.needs_save);
    assert_eq!(app.config.alerts[0].last_triggered, None);
}

#[test]
fn pl_percent_is_zero_without_cost() {
    let free = Holding { symbol: "FREE".to_string(), lots: 10, avg_price: 0 };
    let metrics = free.pl_metrics(fx(5000.0));
    assert_eq!(metrics.1, 0);
    assert_eq!(metrics.0, 5_000 * 10_000 * 1_000);
    assert_eq!(metrics.2, 5_000 * 10_000 * 1_000);
    assert_eq!(metrics.3, 0);
    let none = Holding { symbol: "NONE".to_string(), lots: 0, avg_price: fx(100.0) };
    assert_eq!(none.pl_metrics(fx(200.0)).3, 0);
}

#[test]
fn pl_metrics_gives_exact_figures() {
    let holding = Holding { symbol: "BBCA".to_string(), lots: 10, avg_price: fx(8000.0) };
    assert_eq!(holding.shares(), 1_000);
    assert_eq!(holding.cost_basis(), 8_000 * 10_000 * 1_000);
    let up = holding.pl_metrics(fx(9000.0));
    assert_eq!(up.0, 9_000 * 10_000 * 1_000);
    assert_eq!(up.2, 1_000 * 10_000 * 1_000);
    assert_eq!(up.3, 125_000);
    let down = holding.pl_metrics(fx(7000.0));
    assert_eq!(down.2, -1_000 * 10_000 * 1_000);
    assert_eq!(down.3, -125_000);
    let third = Holding { symbol: "X".to_string(), lots: 3, avg_price: fx(3.0) };
    assert_eq!(third.pl_metrics(fx(2.0)).3, -333_333);
}

#[test]
fn rows_do_not_change_when_filtered_and_sorted_again() {
    let mut app = app();
    app.config.watchlists[0].symbols.push("GOTO".to_string());
    app.quotes.insert("BBCA".to_string(), quote("BBCA", 9000.0, 1.0));
    app.quotes.insert("BBRI".to_string(), quote("BBRI", 5000.0, 1.0));
    app.quotes.insert("ASII".to_string(), quote("ASII", 5000.0, 2.0));
    app.search_active = true;
    app.search_query = "B".to_string();
    app.watchlist_sort_column = Some(2);
    let once: Vec<String> =
        app.get_filtered_watchlist().iter().map(|(s, _)| (*s).clone()).collect();
    assert_eq!(once, vec!["BBRI", "BBCA"]);
    app.config.watchlists[0].symbols = once.clone();
    let twice: Vec<String> =
        app.get_filtered_watchlist().iter().map(|(s, _)| (*s).clone()).collect();
    assert_eq!(once, twice);
}

// Views.

#[test]
fn rows_without_quote_come_last_in_both_directions() {
    let mut app = app();
    app.quotes.insert("TLKM".to_string(), quote("TLKM", 3000.0, 0.0));
    app.quotes.insert("ASII".to_string(), quote("ASII", 7000.0, 0.0));
    app.watchlist_sort_column = Some(2);
    let up: Vec<String> = app.get_filtered_watchlist().iter().map(|(s, _)| (*s).clone()).collect();
    assert_eq!(up, vec!["TLKM", "ASII", "BBCA", "BBRI"]);
    app.watchlist_sort_direction = SortDirection::Descending;
    let down: Vec<String> =
        app.get_filtered_watchlist().iter().map(|(s, _)| (*s).clone()).collect();
    assert_eq!(down, vec!["ASII", "TLKM", "BBCA", "BBRI"]);
}

#[test]
fn news_stand_newest_first_without_a_sort_column() {
    let mut app = app();
    app.news_items = vec![news("old", "A", 10), news("new", "B", 30), news("mid", "C", 20)];
    let titles: Vec<&str> = app.get_filtered_news().iter().map(|n| n.title.as_str()).collect();
    assert_eq!(titles, vec!["new", "mid", "old"]);
    app.news_sort_column = Some(2);
    let titles: Vec<&str> = app.get_filtered_news().iter().map(|n| n.title.as_str()).collect();
    assert_eq!(titles, vec!["mid", "new", "old"]);
}

#[test]
fn scrolling_follows_the_selection() {
    let mut app = app();
    app.table_viewport_height = 2;
    app.move_down();
    assert_eq!(app.watchlist_table_state.offset(), 0);
    app.move_down();
    assert_eq!(app.selected_index, 2);
    assert_eq!(app.watchlist_table_state.offset(), 1);
    assert_eq!(app.watchlist_table_state.selected(), Some(2));
    app.move_up();
    app.move_up();
    assert_eq!(app.selected_index, 0);
    assert_eq!(app.watchlist_table_state.offset(), 0);
}

#[test]
fn portfolio_allocation_is_sorted_by_value() {
    let mut app = app();
    app.config.add_holding("BBCA", 1, fx(100.0));
    app.config.add_holding("TLKM", 3, fx(100.0));
    app.config.add_holding("ASII", 5, fx(100.0));
    app.quotes.insert("BBCA".to_string(), quote("BBCA", 100.0, 0.0));
    app.quotes.insert("TLKM".to_string(), quote("TLKM", 100.0, 0.0));
    let rows = app.portfolio_allocation();
    assert_eq!(rows.len(), 3);
    assert_eq!(rows[0], ("TLKM".to_string(), 300 * 100 * 10_000, 750_000));
    assert_eq!(rows[1], ("BBCA".to_string(), 100 * 100 * 10_000, 250_000));
    assert_eq!(rows[2], ("ASII".to_string(), 0, 0));
    app.quotes.clear();
    let rows = app.portfolio_allocation();
    assert!(rows.iter().all(|r| r.2 == 0));
    assert_eq!(rows[0].0, "BBCA");
}

// The input modes.

#[test]
fn adding_a_holding_takes_three_steps() {
    let mut app = app();
    app.view_mode = ViewMode::Portfolio;
    app.handle_key_at(Key::Char('a'), 0);
    assert_eq!(app.input_mode, InputMode::PortfolioAddSymbol);
    type_text(&mut app, "bb-ca!");
    assert_eq!(app.input_buffer, "bbca");
    app.handle_key_at(Key::Enter, 0);
    assert_eq!(app.input_mode, InputMode::PortfolioAddLots);
    assert_eq!(app.pending_symbol.as_deref(), Some("BBCA"));
    type_text(&mut app, "1x2.");
    assert_eq!(app.input_buffer, "12");
    app.handle_key_at(Key::Enter, 0);
    assert_eq!(app.input_mode, InputMode::PortfolioAddPrice);
    assert_eq!(app.pending_lots, Some(12));
    type_text(&mut app, "8000.5a");
    assert_eq!(app.input_buffer, "8000.5");
    let command = app.handle_key_at(Key::Enter, 0);
    assert!(matches!(command, Command::RefreshQuotes));
    assert_eq!(app.input_mode, InputMode::Normal);
    assert_eq!(app.status_message.as_deref(), Some("Added 12 lots of BBCA @ 8000.5"));
    assert_eq!(app.pending_symbol, None);
    assert_eq!(app.pending_lots, None);
    assert!(app.needs_save);
    let holding = &app.config.current_portfolio().holdings[0];
    assert_eq!((holding.symbol.as_str(), holding.lots, holding.avg_price), ("BBCA", 12, 80_005_000));
}

#[test]
fn rejected_input_keeps_the_step() {
    let mut app = app();
    app.view_mode = ViewMode::Portfolio;
    app.start_portfolio_add();
    app.input_buffer = "TLKM".to_string();
    app.confirm_portfolio_symbol();
    app.input_buffer = "0".to_string();
    app.confirm_portfolio_lots();
    assert_eq!(app.input_mode, InputMode::PortfolioAddLots);
    assert_eq!(app.status_message.as_deref(), Some("Lots must be greater than 0"));
    assert!(app.input_buffer.is_empty());
    app.input_buffer = "4294967296".to_string();
    app.confirm_portfolio_lots();
    assert_eq!(app.input_mode, InputMode::PortfolioAddLots);
    assert_eq!(app.status_message.as_deref(), Some("Invalid number for lots"));
    app.input_buffer = "5".to_string();
    app.confirm_portfolio_lots();
    app.input_buffer = "0.0".to_string();
    app.confirm_portfolio_price();
    assert_eq!(app.input_mode, InputMode::PortfolioAddPrice);
    assert_eq!(app.status_message.as_deref(), Some("Price must be greater than 0"));
    app.input_buffer = "1.2.3".to_string();
    app.confirm_portfolio_price();
    assert_eq!(app.input_mode, InputMode::PortfolioAddPrice);
    assert_eq!(app.status_message.as_deref(), Some("Invalid number for price"));
    assert_eq!(app.pending_symbol.as_deref(), Some("TLKM"));
    assert_eq!(app.pending_lots, Some(5));
    assert!(app.config.current_portfolio().holdings.is_empty());
    assert!(!app.needs_save);
}

#[test]
fn cancel_clears_what_a_wizard_collected() {
    let mut app = app();
    app.view_mode = ViewMode::Portfolio;
    app.handle_key_at(Key::Char('a'), 0);
    type_text(&mut app, "goto");
    app.handle_key_at(Key::Enter, 0);
    type_text(&mut app, "7");
    app.handle_key_at(Key::Enter, 0);
    assert_eq!(app.pending_lots, Some(7));
    app.handle_key_at(Key::Esc, 0);
    assert_eq!(app.input_mode, InputMode::Normal);
    assert_eq!(app.pending_symbol, None);
    assert_eq!(app.pending_lots, None);
    assert_eq!(app.pending_edit_symbol, None);
    assert!(app.input_buffer.is_empty());
    app.alert_symbol = Some("BBCA".to_string());
    app.input_mode = InputMode::AlertAddType;
    app.handle_key_at(Key::Right, 0);
    assert_eq!(app.pending_alert_type, AlertType::Below);
    app.handle_key_at(Key::Esc, 0);
    assert_eq!(app.input_mode, InputMode::AlertList);
    assert_eq!(app.pending_alert_type, AlertType::Above);
}

#[test]
fn overflowing_purchase_ends_the_wizard_without_change() {
    let mut app = app();
    app.config.add_holding("BBCA", u32::MAX, fx(10.0));
    app.pending_symbol = Some("BBCA".to_string());
    app.pending_lots = Some(1);
    app.input_mode = InputMode::PortfolioAddPrice;
    app.input_buffer = "20".to_string();
    app.confirm_portfolio_price();
    assert_eq!(app.input_mode, InputMode::Normal);
    assert_eq!(
        app.status_message.as_deref(),
        Some("Total lots would exceed maximum (4,294,967,295)")
    );
    assert!(!app.needs_save);
    assert_eq!(app.config.current_portfolio().holdings[0].avg_price, fx(10.0));
}

#[test]
fn editing_a_holding_prefills_the_fields() {
    let mut app = app();
    app.view_mode = ViewMode::Portfolio;
    app.config.add_holding("BBCA", 10, fx(8000.25));
    app.handle_key_at(Key::Char('e'), 0);
    assert_eq!(app.input_mode, InputMode::PortfolioEditLots);
    assert_eq!(app.input_buffer, "10");
    app.handle_key_at(Key::Backspace, 0);
    app.handle_key_at(Key::Char('5'), 0);
    app.handle_key_at(Key::Enter, 0);
    assert_eq!(app.input_mode, InputMode::PortfolioEditPrice);
    assert_eq!(app.input_buffer, "8000.25");
    app.input_buffer = "9000".to_string();
    app.handle_key_at(Key::Enter, 0);
    assert_eq!(app.input_mode, InputMode::Normal);
    assert_eq!(app.status_message.as_deref(), Some("Updated BBCA → 15 lots @ 9000"));
    let holding = &app.config.current_portfolio().holdings[0];
    assert_eq!((holding.lots, holding.avg_price), (15, fx(9000.0)));
}

#[test]
fn only_normal_mode_takes_navigation_keys() {
    let mut app = app();
    app.input_mode = InputMode::Help;
    let before = app.selected_index;
    assert!(matches!(app.handle_key_at(Key::Down, 0), Command::Nothing));
    assert!(matches!(app.handle_key_at(Key::Char('q'), 0), Command::Nothing));
    assert!(matches!(app.handle_key_at(Key::Char('d'), 0), Command::Nothing));
    assert_eq!(app.selected_index, before);
    assert_eq!(symbols(&app).len(), 4);
    assert_eq!(app.input_mode, InputMode::Help);
    app.handle_key_at(Key::Char('?'), 0);
    assert_eq!(app.input_mode, InputMode::Normal);
    assert!(matches!(app.handle_key_at(Key::Char('q'), 0), Command::Quit));
}

#[test]
fn keys_mean_what_the_mode_says() {
    let tab = NewsTab::Feed;
    assert_eq!(
        decide_key(InputMode::Normal, ViewMode::Watchlist, tab, 0, Key::Char('e')),
        Action::StartExport
    );
    assert_eq!(
        decide_key(InputMode::Normal, ViewMode::Portfolio, tab, 0, Key::Char('e')),
        Action::StartPortfolioEdit
    );
    assert_eq!(
        decide_key(InputMode::Normal, ViewMode::News, tab, 0, Key::Char('e')),
        Action::Ignore
    );
    assert_eq!(
        decide_key(InputMode::PortfolioAddLots, ViewMode::Portfolio, tab, 0, Key::Char('7')),
        Action::Append('7')
    );
    assert_eq!(
        decide_key(InputMode::PortfolioAddLots, ViewMode::Portfolio, tab, 0, Key::Char('.')),
        Action::Ignore
    );
    assert_eq!(
        decide_key(InputMode::PortfolioEditPrice, ViewMode::Portfolio, tab, 0, Key::Char('.')),
        Action::Append('.')
    );
    assert_eq!(
        decide_key(InputMode::WatchlistAdd, ViewMode::Watchlist, tab, 0, Key::Char('_')),
        Action::Append('_')
    );
    assert_eq!(
        decide_key(InputMode::Adding, ViewMode::Watchlist, tab, 0, Key::Char('_')),
        Action::Ignore
    );
    assert_eq!(
        decide_key(InputMode::Adding, ViewMode::Watchlist, tab, 0, Key::Char('é')),
        Action::Append('é')
    );
    assert_eq!(
        decide_key(InputMode::ExportMenu, ViewMode::Watchlist, tab, 1, Key::Left),
        Action::ToggleExportScope
    );
    assert_eq!(
        decide_key(InputMode::ExportMenu, ViewMode::Watchlist, tab, 2, Key::Left),
        Action::Ignore
    );
    assert_eq!(
        decide_key(InputMode::Search, ViewMode::News, tab, 0, Key::Esc),
        Action::CancelSearch
    );
}

#[test]
fn switching_views_asks_for_the_right_data() {
    let mut app = app();
    app.quotes.insert("BBCA".to_string(), quote("BBCA", 1.0, 0.0));
    assert!(matches!(app.handle_key_at(Key::Char('p'), 0), Command::RefreshQuotes));
    assert_eq!(app.view_mode, ViewMode::Portfolio);
    assert!(app.quotes.is_empty());
    assert!(matches!(app.handle_key_at(Key::Char('p'), 0), Command::RefreshNews));
    assert_eq!(app.view_mode, ViewMode::News);
    app.execute_news_refresh(Ok(vec![news("a", "b", 1)]), 50);
    app.view_mode = ViewMode::Portfolio;
    assert!(matches!(app.handle_key_at(Key::Char('p'), 0), Command::Nothing));
    assert!(matches!(app.handle_key_at(Key::Char('r'), 0), Command::RefreshNews));
    assert!(matches!(app.handle_key_at(Key::Tab, 0), Command::Nothing));
    assert_eq!(app.news_tab, NewsTab::Bookmarks);
}

#[test]
fn watchlists_can_be_added_renamed_and_removed() {
    let mut app = app();
    app.handle_key_at(Key::Char('D'), 0);
    assert_eq!(app.status_message.as_deref(), Some("Cannot remove the last watchlist"));
    assert_eq!(app.config.watchlists.len(), 1);
    app.handle_key_at(Key::Char('n'), 0);
    type_text(&mut app, " My list ");
    app.handle_key_at(Key::Enter, 0);
    assert_eq!(app.config.watchlists.len(), 2);
    assert_eq!(app.config.active_watchlist, 1);
    assert_eq!(app.config.current_watchlist().name, "My list");
    assert_eq!(app.status_message.as_deref(), Some("Created watchlist 'My list'"));
    assert_eq!(app.watchlist_indicator(), "My list (2/2)");
    app.handle_key_at(Key::Char('R'), 0);
    assert_eq!(app.input_buffer, "My list");
    type_text(&mut app, "-2");
    app.handle_key_at(Key::Enter, 0);
    assert_eq!(app.status_message.as_deref(), Some("Renamed 'My list' to 'My list-2'"));
    app.handle_key_at(Key::Right, 0);
    assert_eq!(app.config.active_watchlist, 0);
    app.handle_key_at(Key::Left, 0);
    assert_eq!(app.config.active_watchlist, 1);
    app.handle_key_at(Key::Char('D'), 0);
    assert_eq!(app.config.watchlists.len(), 1);
    assert_eq!(app.status_message.as_deref(), Some("Removed watchlist 'My list-2'"));
}

#[test]
fn detail_view_opens_and_loads_in_steps() {
    let mut app = app();
    app.news_items = vec![
        news("BBCA naik", "A", 3),
        news("Bbcab turun", "A", 2),
        news("Saham (bbca) stabil", "A", 1),
    ];
    let command = app.handle_key_at(Key::Enter, 0);
    match command {
        Command::LoadDetail { symbol, fetch_news } => {
            assert_eq!(symbol, "BBCA");
            assert!(!fetch_news);
        }
        _ => panic!("no detail command"),
    }
    assert_eq!(app.input_mode, InputMode::StockDetail);
    assert!(app.chart_loading && app.news_loading);
    app.show_detail_news();
    assert!(!app.news_loading);
    assert_eq!(app.detail_news.as_ref().map(|n| n.len()), Some(2));
    let chart = ChartData::from_closes(vec![fx(3.0), fx(1.0), fx(2.0)]);
    app.finish_detail_chart(chart);
    assert!(!app.chart_loading);
    let chart = app.detail_chart.as_ref().unwrap();
    assert_eq!((chart.high, chart.low), (fx(3.0), fx(1.0)));
    assert!(ChartData::from_closes(Vec::new()).is_none());
    app.handle_key_at(Key::Esc, 0);
    assert_eq!(app.input_mode, InputMode::Normal);
    assert!(app.detail_symbol.is_none());
}

#[test]
fn alert_wizard_adds_an_alert() {
    let mut app = app();
    app.handle_key_at(Key::Char('A'), 0);
    assert_eq!(app.input_mode, InputMode::AlertList);
    assert_eq!(app.alert_symbol.as_deref(), Some("BBCA"));
    app.handle_key_at(Key::Enter, 0);
    assert_eq!(app.input_mode, InputMode::AlertAddType);
    app.handle_key_at(Key::Down, 0);
    app.handle_key_at(Key::Down, 0);
    assert_eq!(app.pending_alert_type, AlertType::PercentGain);
    app.handle_key_at(Key::Enter, 0);
    assert_eq!(app.input_mode, InputMode::AlertAddValue);
    app.handle_key_at(Key::Enter, 0);
    assert_eq!(app.input_mode, InputMode::AlertAddValue);
    assert_eq!(app.status_message.as_deref(), Some("Invalid number"));
    type_text(&mut app, "0");
    app.handle_key_at(Key::Enter, 0);
    assert_eq!(app.status_message.as_deref(), Some("Value must be > 0"));
    type_text(&mut app, "2.5");
    app.handle_key_at(Key::Enter, 77);
    assert_eq!(app.input_mode, InputMode::AlertList);
    assert_eq!(app.status_message.as_deref(), Some("Alert added for BBCA"));
    assert_eq!(app.config.alerts.len(), 1);
    let alert = &app.config.alerts[0];
    assert_eq!(alert.id, "77_BBCA");
    assert_eq!(alert.target_value, 25_000);
    assert_eq!(alert.cooldown_seconds, 300);
    assert!(alert.enabled);
    app.quotes.insert("BBCA".to_string(), quote("BBCA", 1.0, 2.5));
    let fired = app.check_alerts_at(100);
    assert_eq!(fired[0].1, "BBCA up 2.50% (target +2.50%)");
    app.handle_key_at(Key::Enter, 0);
    assert!(!app.config.alerts[0].enabled);
    app.handle_key_at(Key::Char('d'), 0);
    assert!(app.config.alerts.is_empty());
    assert_eq!(app.status_message.as_deref(), Some("Alert deleted"));
    app.handle_key_at(Key::Esc, 0);
    assert_eq!(app.input_mode, InputMode::Normal);
}

#[test]
fn alert_kinds_compare_as_described() {
    let mut alert = Alert::new_at("x", AlertType::PercentLoss, fxi(5.0), 0);
    assert_eq!(alert.symbol, "X");
    assert_eq!(alert.id, "0_x");
    assert!(alert.should_trigger_at(0, fxi(-5.0), 10));
    assert!(!alert.should_trigger_at(0, fxi(-4.9999), 10));
    alert.last_triggered = Some(100);
    assert!(!alert.should_trigger_at(0, fxi(-9.0), 399));
    assert!(alert.should_trigger_at(0, fxi(-9.0), 400));
    assert!(!alert.should_trigger_at(0, fxi(-9.0), 50));
    alert.cooldown_seconds = 0;
    assert!(alert.should_trigger_at(0, fxi(-9.0), 50));
}

#[test]
fn bookmarks_are_kept_once_per_article() {
    let mut app = app();
    app.view_mode = ViewMode::News;
    app.news_items = vec![news("first", "A", 2), news("second", "B", 1)];
    app.handle_key_at(Key::Char('b'), 42);
    assert_eq!(app.status_message.as_deref(), Some("Article bookmarked"));
    assert_eq!(app.config.bookmarks.len(), 1);
    assert_eq!(app.config.bookmarks[0].id, "bm_42");
    assert_eq!(app.config.bookmarks[0].bookmarked_at, 42);
    assert_eq!(app.config.bookmarks[0].headline, "first");
    assert!(app.config.is_bookmarked("first", Some("https://example.com/2")));
    app.handle_key_at(Key::Char('b'), 43);
    assert_eq!(app.status_message.as_deref(), Some("Bookmark removed"));
    assert!(app.config.bookmarks.is_empty());
    app.handle_key_at(Key::Char('b'), 44);
    app.handle_key_at(Key::Tab, 0);
    app.handle_key_at(Key::Enter, 0);
    assert_eq!(app.input_mode, InputMode::BookmarkDetail);
    assert!(app.config.bookmarks[0].read);
    match app.handle_key_at(Key::Char('o'), 0) {
        Command::OpenUrl(url) => assert_eq!(url, "https://example.com/2"),
        _ => panic!("no address"),
    }
    app.handle_key_at(Key::Down, 0);
    assert_eq!(app.bookmark_detail_scroll, 1);
    app.handle_key_at(Key::Up, 0);
    app.handle_key_at(Key::Up, 0);
    assert_eq!(app.bookmark_detail_scroll, 0);
    app.handle_key_at(Key::Esc, 0);
    app.handle_key_at(Key::Char('C'), 0);
    assert_eq!(app.input_mode, InputMode::BookmarkClearConfirm);
    app.handle_key_at(Key::Char('y'), 0);
    assert!(app.config.bookmarks.is_empty());
}

#[test]
fn export_menu_leads_to_a_file() {
    let mut app = app();
    app.handle_key_at(Key::Char('e'), 0);
    assert_eq!(app.input_mode, InputMode::ExportMenu);
    assert!(matches!(app.handle_key_at(Key::Enter, 0), Command::Nothing));
    app.handle_key_at(Key::Right, 0);
    assert_eq!(app.export_format, ExportFormat::Json);
    app.handle_key_at(Key::Down, 0);
    app.handle_key_at(Key::Char('l'), 0);
    assert_eq!(app.export_scope, ExportScope::Portfolio);
    app.handle_key_at(Key::Down, 0);
    app.handle_key_at(Key::Down, 0);
    assert_eq!(app.export_menu_selection, 2);
    assert!(matches!(app.handle_key_at(Key::Enter, 0), Command::WriteExport));
    assert_eq!(app.input_mode, InputMode::Normal);
    assert_eq!(app.export_file_name("20240102_030405"), "idx_portfolio_20240102_030405.json");
    app.finish_export(Err("disk full".to_string()));
    assert_eq!(app.status_message.as_deref(), Some("Export failed: disk full"));
    app.finish_export(Ok("/tmp/x.csv".to_string()));
    assert_eq!(app.status_message.as_deref(), Some("Exported to /tmp/x.csv"));
}

#[test]
fn csv_exports_have_one_line_per_row() {
    let mut app = app();
    app.config.watchlists[0].symbols = vec!["BBCA".to_string(), "TLKM".to_string()];
    let mut bbca = quote("BBCA", 8000.5, -1.255);
    bbca.short_name = "Bank, Central".to_string();
    bbca.change = fxi(-100.0);
    app.quotes.insert("BBCA".to_string(), bbca);
    assert_eq!(
        app.export_watchlist_csv(),
        "Symbol,Name,Price,Change,Change%,Open,High,Low,Volume\n\
         BBCA,Bank; Central,8000.50,-100.00,-1.26,8000.50,8000.50,8000.50,1000000\n\
         TLKM,Loading...,,,,,,,\n"
    );
    app.config.add_holding("BBCA", 2, fx(8000.0));
    assert_eq!(
        app.export_portfolio_csv(),
        "Symbol,Lots,Shares,AvgPrice,CurrentPrice,Value,Cost,PL,PL%\n\
         BBCA,2,200,8000.00,8000.50,1600100.00,1600000.00,100.00,0.01\n"
    );
}

// The scheduler.

#[test]
fn quotes_are_due_when_the_interval_has_passed() {
    let mut app = app();
    app.config.refresh_interval_secs = 2;
    assert!(app.quotes_due(0, None));
    assert!(!app.quotes_due(1_999, Some(0)));
    assert!(app.quotes_due(2_000, Some(0)));
    assert!(!app.quotes_due(0, Some(5_000)));
    assert!(!app.news_due(1_000_000));
    match app.begin_tick(2_000, Some(0)) {
        Work::FetchQuotes(symbols) => {
            assert_eq!(symbols, vec!["BBCA", "BBRI", "TLKM", "ASII", "^JKSE"])
        }
        _ => panic!("nothing to fetch"),
    }
    assert!(app.loading);
    assert!(!app.quotes_due(10_000, Some(0)));
    assert!(matches!(app.begin_tick(10_000, Some(0)), Work::Poll));
    app.execute_refresh(Err("timeout".to_string()));
    assert!(!app.loading);
    assert_eq!(app.status_message.as_deref(), Some("Error: timeout"));
    let mut fresh = QuoteCache::new();
    fresh.insert("BBCA".to_string(), quote("BBCA", 1.0, 0.0));
    app.quotes.insert("OLD".to_string(), quote("OLD", 1.0, 0.0));
    app.execute_refresh(Ok(fresh));
    assert!(app.quotes.get("OLD").is_none());
    assert!(app.quotes.contains_key("BBCA"));
    assert_eq!(app.status_message, None);
}

#[test]
fn news_are_due_every_five_minutes_in_the_news_view() {
    let mut app = app();
    app.view_mode = ViewMode::News;
    assert!(!app.quotes_due(0, None));
    assert!(app.news_due(0));
    match app.begin_tick(0, None) {
        Work::FetchNews(urls) => assert_eq!(urls, vec!["https://rss.tempo.co/bisnis"]),
        _ => panic!("nothing to fetch"),
    }
    assert!(app.rss_loading);
    assert!(!app.news_due(0));
    app.execute_news_refresh(Err("down".to_string()), 10);
    assert_eq!(app.status_message.as_deref(), Some("News error: down"));
    assert!(app.news_due(10));
    app.execute_news_refresh(Ok(vec![news("x", "y", 1)]), 1_000);
    assert_eq!(app.news_last_refresh, Some(1_000));
    assert!(!app.news_due(300_999));
    assert!(app.news_due(301_000));
    assert!(app.has_recent_news_at("x", 86_401));
    assert!(!app.has_recent_news_at("x", 86_402));
    assert!(!app.has_recent_news_at("z", 10));
}

#[test]
fn refresh_symbols_follow_the_view() {
    let mut app = app();
    app.config.watchlists[0].symbols = vec!["^JKSE".to_string(), "BBCA".to_string()];
    assert_eq!(app.refresh_symbols(), Some(vec!["^JKSE".to_string(), "BBCA".to_string()]));
    app.view_mode = ViewMode::Portfolio;
    assert_eq!(app.prepare_refresh(), Some(vec!["^JKSE".to_string()]));
    assert!(app.loading);
    app.loading = false;
    app.view_mode = ViewMode::News;
    assert_eq!(app.prepare_refresh(), None);
    assert!(!app.loading);
}

// The record store.

#[test]
fn migration_brings_an_old_store_into_shape() {
    let mut old = Config {
        watchlists: Vec::new(),
        active_watchlist: 7,
        refresh_interval_secs: 1,
        portfolio: vec![Holding { symbol: "BBCA".to_string(), lots: 1, avg_price: 1 }],
        portfolios: vec![
            idx_cli::config::Portfolio {
                name: "Mine".to_string(),
                holdings: vec![Holding { symbol: "TLKM".to_string(), lots: 1, avg_price: 1 }],
            },
        ],
        active_portfolio: 9,
        news_sources: vec![
            "https://www.kontan.co.id/rss/investasi".to_string(),
            "https://rss.tempo.co/bisnis".to_string(),
            "https://example.com/feed".to_string(),
        ],
        alerts: Vec::new(),
        bookmarks: Vec::new(),
    };
    assert!(old.migrate());
    assert_eq!(old.watchlists.len(), 1);
    assert_eq!(old.watchlists[0].name, "Default");
    assert_eq!(old.active_watchlist, 0);
    assert!(old.portfolio.is_empty());
    assert_eq!(old.portfolios.len(), 2);
    assert_eq!(old.portfolios[1].name, "Imported");
    assert_eq!(old.portfolios[1].holdings[0].symbol, "BBCA");
    assert_eq!(old.active_portfolio, 0);
    assert_eq!(
        old.news_sources,
        vec![
            "https://rss.tempo.co/bisnis",
            "https://example.com/feed",
            "https://www.cnbcindonesia.com/market/rss",
            "https://www.cnbcindonesia.com/news/rss",
            "https://www.idxchannel.com/rss",
        ]
    );
    assert!(!old.migrate());
    let fresh = Config::default();
    assert_eq!(fresh.watchlists.len(), 3);
    assert_eq!(fresh.watchlists[1].symbols, vec!["TLKM", "GOTO", "BUKA"]);
    assert_eq!(fresh.refresh_interval_secs, 1);
    assert_eq!(fresh.news_sources.len(), 4);
}

#[test]
fn store_operations_go_by_upper_case_symbols() {
    let mut config = config();
    config.add_stock("goto");
    config.add_stock("Goto");
    assert_eq!(config.current_watchlist().symbols.last().map(|s| s.as_str()), Some("GOTO"));
    assert_eq!(config.current_watchlist().symbols.len(), 5);
    config.remove_stock("bbca");
    assert_eq!(config.current_watchlist().symbols, vec!["BBRI", "TLKM", "ASII", "GOTO"]);
    config.add_holding("bbri", 1, 5);
    config.update_holding("bbri", 9, 9);
    assert_eq!(config.current_portfolio().holdings[0].lots, 1);
    config.update_holding("BBRI", 9, 9);
    assert_eq!(config.current_portfolio().holdings[0].lots, 9);
    assert_eq!(config.portfolio_symbols(), vec!["BBRI"]);
    config.remove_holding("bbri");
    assert!(config.current_portfolio().holdings.is_empty());
    config.add_alert(Alert::new_at("bbri", AlertType::Above, 1, 3));
    assert!(config.has_active_alerts("Bbri"));
    config.mark_triggered_at("3_bbri", 99);
    assert_eq!(config.alerts[0].last_triggered, Some(99));
    config.mark_triggered("3_bbri");
    assert!(config.alerts[0].last_triggered.unwrap() > 99);
    config.remove_alert("3_bbri");
    assert!(config.alerts.is_empty());
}

// Numbers and text.

#[test]
fn numbers_are_read_as_typed() {
    assert_eq!(parse_u32("42"), Some(42));
    assert_eq!(parse_u32("+42"), Some(42));
    assert_eq!(parse_u32("4294967295"), Some(u32::MAX));
    assert_eq!(parse_u32("4294967296"), None);
    assert_eq!(parse_u32(""), None);
    assert_eq!(parse_u32("+"), None);
    assert_eq!(parse_u32("4 2"), None);
    assert_eq!(parse_u32("-1"), None);
    assert_eq!(parse_amount("8000"), Some(80_000_000));
    assert_eq!(parse_amount("8000.5"), Some(80_005_000));
    assert_eq!(parse_amount(".25"), Some(2_500));
    assert_eq!(parse_amount("5."), Some(50_000));
    assert_eq!(parse_amount("0.00019"), Some(1));
    assert_eq!(parse_amount("."), None);
    assert_eq!(parse_amount(""), None);
    assert_eq!(parse_amount("1.2.3"), None);
    assert_eq!(parse_amount("1e3"), None);
    assert_eq!(parse_amount("1844674407370955.1615"), Some(u64::MAX));
    assert_eq!(parse_amount("1844674407370955.1616"), None);
    assert_eq!(amount_string(80_005_000), "8000.5");
    assert_eq!(amount_string(80_000_000), "8000");
    assert_eq!(amount_string(125), "0.0125");
    assert_eq!(amount_string(0), "0");
}

#[test]
fn text_helpers_follow_the_standard_ones() {
    assert_eq!(trim("  a b\t\n"), "a b");
    assert_eq!(trim(" \u{3000} "), "");
    assert!(contains("BBCA", "BC"));
    assert!(contains("BBCA", ""));
    assert!(!contains("BBCA", "CB"));
    assert!(!contains("", "A"));
}

#[test]
fn words_wrap_at_the_width() {
    assert_eq!(word_wrap("the quick brown fox", 9), vec!["the quick", "brown fox"]);
    assert_eq!(word_wrap("the quick brown fox", 10), vec!["the quick", "brown fox"]);
    assert_eq!(word_wrap("a\n\n  b  c ", 3), vec!["a", "", "b c"]);
    assert_eq!(word_wrap("extraordinary x", 5), vec!["extraordinary", "x"]);
    assert_eq!(word_wrap("", 5), vec![""]);
    assert!(word_wrap("some text", 0).is_empty());
}

#[test]
fn tags_are_stripped_and_entities_decoded() {
    assert_eq!(strip_tag_content("<p class=\"a>b\">Hello,   <b>world</b></p>"), "b\"Hello, world");
    assert_eq!(strip_tag_content("<p>Tom &amp; Jerry &lt;3&gt;</p>"), "Tom & Jerry <3>");
    assert_eq!(strip_tag_content("a&nbsp;&quot;b&quot;&#39;c&#40; &x"), "a \"b\"'c&#40; &x");
    assert_eq!(strip_tag_content("1 > 0 <unclosed &amp;"), "1 0");
    assert_eq!(strip_tag_content("  \n "), "");
}

#[test]
fn columns_show_by_priority() {
    let columns = vec![
        ColumnDef { name: "Symbol", width: 8, priority: 1 },
        ColumnDef { name: "Name", width: 22, priority: 3 },
        ColumnDef { name: "Price", width: 10, priority: 1 },
        ColumnDef { name: "Change", width: 10, priority: 2 },
    ];
    assert_eq!(visible_columns(&columns, 100), vec![0, 1, 2, 3]);
    assert_eq!(visible_columns(&columns, 49), vec![0, 2, 3]);
    assert_eq!(visible_columns(&columns, 28), vec![0, 2, 3]);
    assert_eq!(visible_columns(&columns, 27), vec![0, 2]);
    assert_eq!(visible_columns(&columns, 5), vec![0, 2]);
    assert!(visible_columns(&Vec::new(), 5).is_empty());
    let shown = vec![0, 1, 2];
    assert_eq!(
        column_constraints(&columns, &shown, Some(1), 50),
        vec![ColumnWidth::Length(8), ColumnWidth::Min(22), ColumnWidth::Length(10)]
    );
    assert_eq!(
        column_constraints(&columns, &shown, None, 50),
        vec![
            ColumnWidth::Length(8),
            ColumnWidth::Length(22),
            ColumnWidth::Length(10),
            ColumnWidth::Min(0)
        ]
    );
    assert_eq!(
        column_constraints(&columns, &shown, Some(1), 40),
        vec![ColumnWidth::Length(8), ColumnWidth::Length(22), ColumnWidth::Length(10)]
    );
    assert_eq!(header_label("Price", true, SortDirection::Descending), "Price ▼");
    assert_eq!(header_label("Price", false, SortDirection::Descending), "Price");
}

// The collaborators' data.

#[test]
fn publishers_are_named_by_host() {
    assert_eq!(publisher_from_url("https://www.cnbcindonesia.com/market/rss"), "CNBC Indonesia");
    assert_eq!(publisher_from_url("https://rss.tempo.co/bisnis"), "Tempo");
    assert_eq!(publisher_from_url("http://feeds.feedburner.com/x"), "Feedburner");
    assert_eq!(publisher_from_url("https://www.www.kontan.co.id"), "Kontan");
    assert_eq!(publisher_from_url("https://news.example.org/rss"), "news");
    assert_eq!(publisher_from_url("idxchannel.com"), "IDX Channel");
    assert_eq!(publisher_from_url(""), "");
}

#[test]
fn feed_entries_become_news_and_feeds_merge() {
    let entries = vec![
        FeedEntry {
            title: Some("First".to_string()),
            published: Some(1_704_067_200),
            updated: Some(1_704_070_000),
            links: vec!["https://a.example/1".to_string(), "https://a.example/other".to_string()],
            summary: Some("Sum".to_string()),
        },
        FeedEntry {
            title: None,
            published: None,
            updated: Some(77),
            links: Vec::new(),
            summary: None,
        },
        FeedEntry { title: None, published: None, updated: None, links: Vec::new(), summary: None },
    ];
    let items = news_from_entries("https://www.idxchannel.com/rss", entries);
    assert_eq!(items.len(), 3);
    assert_eq!(items[0].title, "First");
    assert_eq!(items[0].publisher, "IDX Channel");
    assert_eq!(items[0].published_at, 1_704_067_200);
    assert_eq!(items[0].url.as_deref(), Some("https://a.example/1"));
    assert_eq!(items[0].summary.as_deref(), Some("Sum"));
    assert_eq!(items[1].title, "(no title)");
    assert_eq!(items[1].published_at, 77);
    assert_eq!(items[1].url, None);
    assert_eq!(items[2].published_at, 0);
    assert!(news_from_entries("x", Vec::new()).is_empty());
    let merged = merge_feeds(vec![
        vec![news("a", "A", 5), news("b", "A", 1)],
        vec![news("c", "B", 5), news("d", "B", 9)],
    ]);
    let titles: Vec<&str> = merged.iter().map(|n| n.title.as_str()).collect();
    assert_eq!(titles, vec!["d", "a", "c", "b"]);
}

#[test]
fn quotes_know_their_traded_value_and_range() {
    let mut q = quote("BBCA", 8000.0, 0.0);
    assert_eq!(q.traded_value(), 80_000_000 * 1_000_000);
    assert_eq!(q.range_position(), None);
    q.fifty_two_week_low = Some(fx(6000.0));
    assert_eq!(q.range_position(), None);
    q.fifty_two_week_high = Some(fx(6000.0));
    assert_eq!(q.range_position(), None);
    q.fifty_two_week_high = Some(fx(9000.0));
    assert_eq!(q.range_position(), Some(66));
    q.price = fx(5000.0);
    assert_eq!(q.range_position(), Some(0));
    q.price = fx(9500.0);
    assert_eq!(q.range_position(), Some(100));
}

#[test]
fn selection_returns_to_the_last_row_after_a_removal() {
    let mut app = app();
    app.selected_index = 3;
    app.config.watchlists[0].symbols.push("ASII".to_string());
    app.selected_index = 4;
    app.remove_selected();
    assert_eq!(symbols(&app), vec!["BBCA", "BBRI", "TLKM"]);
    assert_eq!(app.selected_index, 2);
    assert_eq!(app.status_message.as_deref(), Some("Removed ASII"));
    app.view_mode = ViewMode::Portfolio;
    app.remove_selected_holding();
    assert_eq!(app.portfolio_selected, 0);
}

#[test]
fn quote_service_helpers() {
    assert_eq!(to_yahoo_symbol("bbca"), "BBCA.JK");
    assert_eq!(to_yahoo_symbol("bbca.jk"), "BBCA.JK");
    assert_eq!(display_symbol("BBCA.JK.JK"), "BBCA");
    assert_eq!(display_symbol("^JKSE"), "^JKSE");
    assert_eq!(extract_crumb("x\"crumb\":\"abc\"y").as_deref(), Some("abc"));
    assert_eq!(
        extract_crumb("\"crumb\":\"\" \"CrumbStore\":{\"crumb\":\"zz\"}").as_deref(),
        Some("zz")
    );
    assert_eq!(extract_crumb("\"crumb\":\"open"), None);
    assert_eq!(extract_crumb("nothing"), None);
    let fields = |symbol: &str, price: Option<u64>| QuoteFields {
        symbol: symbol.to_string(),
        short_name: None,
        price,
        change: None,
        change_percent: None,
        open: None,
        high: None,
        low: None,
        volume: None,
        prev_close: None,
        long_name: None,
        sector: None,
        industry: None,
        market_cap: Some(7),
        trailing_pe: None,
        dividend_yield: None,
        fifty_two_week_high: None,
        fifty_two_week_low: None,
        beta: None,
        average_volume: None,
    };
    let cache = quotes_from_results(vec![
        fields("BBCA.JK", Some(1)),
        fields("TLKM.JK", None),
        fields("BBCA.JK", Some(2)),
    ]);
    let bbca = cache.get("BBCA").unwrap();
    assert_eq!((bbca.symbol.as_str(), bbca.short_name.as_str(), bbca.price), ("BBCA", "N/A", 2));
    assert_eq!(bbca.market_cap, Some(7));
    assert_eq!(cache.get("TLKM").unwrap().price, 0);
    assert!(cache.get("BBCA.JK").is_none());
}

#[test]
fn removing_the_selected_row_takes_the_symbol_as_stored() {
    let mut app = app();
    app.config.watchlists[0].symbols = vec!["BBCA".to_string(), "goto".to_string(), "GOTO".to_string()];
    app.quotes.insert("goto".to_string(), quote("goto", 50.0, 0.0));
    app.quotes.insert("GOTO".to_string(), quote("GOTO", 60.0, 0.0));
    app.selected_index = 1;
    app.remove_selected();
    assert_eq!(symbols(&app), vec!["BBCA", "GOTO"]);
    assert!(!app.quotes.contains_key("goto"));
    assert!(app.quotes.contains_key("GOTO"));
    assert_eq!(app.selected_index, 1);
    assert_eq!(app.status_message.as_deref(), Some("Removed goto"));
    assert!(app.needs_save);
}

#[test]
fn removing_the_last_of_several_rows_selects_the_row_before() {
    let mut app = app();
    app.config.watchlists[0].symbols =
        vec!["BBCA".to_string(), "BBRI".to_string(), "TLKM".to_string(), "ASII".to_string()];
    app.selected_index = 3;
    app.remove_selected();
    assert_eq!(symbols(&app), vec!["BBCA", "BBRI", "TLKM"]);
    assert_eq!(app.selected_index, 2);
    assert_eq!(app.get_filtered_watchlist().len(), 3);
}

#[test]
fn removing_the_selected_holding_takes_the_symbol_as_stored() {
    let mut app = app();
    app.view_mode = ViewMode::Portfolio;
    app.config.portfolios[0].holdings = vec![
        Holding { symbol: "BBCA".to_string(), lots: 1, avg_price: fx(100.0) },
        Holding { symbol: "goto".to_string(), lots: 2, avg_price: fx(50.0) },
        Holding { symbol: "GOTO".to_string(), lots: 3, avg_price: fx(60.0) },
    ];
    app.quotes.insert("goto".to_string(), quote("goto", 50.0, 0.0));
    app.quotes.insert("GOTO".to_string(), quote("GOTO", 60.0, 0.0));
    app.portfolio_selected = 1;
    app.remove_selected_holding();
    let left: Vec<String> =
        app.config.current_portfolio().holdings.iter().map(|h| h.symbol.clone()).collect();
    assert_eq!(left, vec!["BBCA", "GOTO"]);
    assert!(!app.quotes.contains_key("goto"));
    assert!(app.quotes.contains_key("GOTO"));
    assert_eq!(app.portfolio_selected, 1);
    assert_eq!(app.status_message.as_deref(), Some("Removed goto"));
}
