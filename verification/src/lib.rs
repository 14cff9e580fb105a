//! The session core of a terminal stock tracker: the record store of
//! watchlists, portfolios, alerts and bookmarks, the model of what is on
//! screen, the input modes that decide what a key means, the alert engine
//! and the refresh scheduler. Every function is verified against the
//! mathematical model of the data it works on.
//!
//! Amounts of money and percentages are fixed-point integers with four
//! decimal places. The caller owns the terminal, the network, the clock of
//! the scheduler and the store file: it hands keys and fetched data in and
//! carries out the commands that come back.

pub mod api;
pub mod app;
pub mod clock;
pub mod config;
pub mod laws;
pub mod number;
pub mod quotes;
pub mod relation;
pub mod rows;
pub mod text;
pub mod ui;
