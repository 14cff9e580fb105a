//! Records that come from the quote and news collaborators, and the pure
//! parts of talking to them.

pub mod news;
pub mod yahoo;

pub use yahoo::{ChartData, NewsItem, NewsItemModel, StockQuote, StockQuoteModel};
