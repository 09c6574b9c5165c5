//! Read-only inspection of a browser's tracking-prevention observation store:
//! which domains were observed, how prevalent they are, how they relate to
//! other domains, and the cursor that walks the resulting list.

pub mod domain;
pub mod error;
pub mod lookup;
pub mod sqlite;
pub mod config;
pub mod listing;
pub mod database;
pub mod catalog;
pub mod navigation;
pub mod domain_renderer;
