use idx_cli::api::StockQuote;
use idx_cli::app::{App, InputMode, ViewMode};
use idx_cli::config::{default_portfolios, Alert, AlertType, Config, Watchlist};

#[test]
fn app_alerts_check_alerts_fires_when_price_matches() {
    let mut app = test_app();
    let alert = Alert::new("BBCA", AlertType::Above, fxi(8000.0));
    app.config.add_alert(alert);

    let quote = StockQuote {
        symbol: "BBCA".to_string(),
        short_name: "Bank Mandiri".to_string(),
        price: fx(8001.0),
        change: fxi(100.0),
        change_percent: fxi(1.0),
        open: fx(7900.0),
        high: fx(8050.0),
        low: fx(7900.0),
        volume: 1_000_000,
        prev_close: fx(7900.0),
        long_name: Some("PT Bank Mandiri".to_string()),
        sector: Some("Financial".to_string()),
        industry: Some("Banking".to_string()),
        market_cap: Some(100_000_000_000),
        trailing_pe: Some(fxi(10.0)),
        dividend_yield: Some(fxi(2.5)),
        fifty_two_week_high: Some(fx(9000.0)),
        fifty_two_week_low: Some(fx(7000.0)),
        beta: Some(fxi(1.2)),
        average_volume: Some(500_000),
    };
    app.quotes.insert("BBCA".to_string(), quote);

    let triggered = app.check_alerts();
    assert_eq!(triggered.len(), 1);
    assert!(triggered[0].1.contains("crossed above"));
}

#[test]
fn app_alerts_open_alert_modal_returns_to_normal_when_no_symbol() {
    let mut app = test_app();
    app.view_mode = ViewMode::Watchlist;
    app.config.watchlists[0].symbols.clear();
    app.selected_index = 0;
    app.open_alert_modal();
    assert_eq!(app.input_mode, InputMode::Normal);
    assert_eq!(app.alert_symbol, None);
}

fn fx(v: f64) -> u64 {
    (v * 10_000.0).round() as u64
}

fn fxi(v: f64) -> i64 {
    (v * 10_000.0).round() as i64
}

fn test_config() -> Config {
    Config {
        watchlists: vec![Watchlist::default()],
        active_watchlist: 0,
        refresh_interval_secs: 1,
        portfolio: Vec::new(),
        portfolios: default_portfolios(),
        active_portfolio: 0,
        news_sources: Vec::new(),
        alerts: Vec::new(),
        bookmarks: Vec::new(),
    }
}

fn test_app() -> App {
    let mut app = App::new(test_config());
    app.table_viewport_height = 20;
    app
}
