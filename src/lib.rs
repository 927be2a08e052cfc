//! Enrichment of search results with the cleaned visible text of their pages.
pub mod blocklist;
pub mod dom;
pub mod enrich;
pub mod extract;
pub mod models;
pub mod pattern;
pub mod sanitize;
pub mod search;
pub mod text;
pub mod url_norm;
