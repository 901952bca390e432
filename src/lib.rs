//! Aggregation of cryptocurrency news and market-data items into one list.
//!
//! The library holds the decisions of the service: how a query term is
//! normalized, which request each provider adapter sends, how each provider's
//! JSON answer becomes a list of [`CryptoNewsItem`]s, and how the two lists
//! are merged. Transport, configuration and serving stay with the caller,
//! which runs each adapter's [`Step`] and hands the parsed answer back.

pub mod aggregate;
pub mod item;
pub mod json;
pub mod market;
pub mod news;
pub mod symbol;
pub mod text;

pub use aggregate::merge_results;
pub use item::{CryptoNewsItem, Request, Step};
pub use json::Json;
pub use market::{market_items, market_items_now, market_step_for, market_website};
pub use news::{news_items, news_search_term, news_step_for};
pub use symbol::{canonical_name, map_symbol_to_name};
