//! Verified core of a command-line tool that collects board games from
//! boardgamegeek.com into a local SQLite database.

pub mod bgg_url;
pub mod boardgame;
pub mod collection;
pub mod db;
pub mod fetch;
pub mod geeklist;
pub mod query;
pub mod text;

pub use bgg_url::{parse_bgg_url, BGGAPIURLType, UrlError};
