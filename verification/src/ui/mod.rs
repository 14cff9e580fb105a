//! What the rendering layer needs computed: numbers and times as text,
//! text cut to size, and the choice of table columns.

pub mod formatters;
pub mod news_detail;
pub mod tables;
