//! Core of a catalogue scraper for a fansub aggregation site: resolving a
//! show's numeric id from its page, walking the paginated release API with
//! quality-tier fallback, and scraping the site's show directory.
//!
//! Fetching pages is the caller's business: every function here takes the
//! fetched body as a plain string and is verified against a mathematical
//! model of what the fixed patterns and selectors yield on it.

pub mod catalogue;
pub mod clock;
pub mod errors;
pub mod listing;
pub mod resolve;
pub mod html;
pub mod pattern;
pub mod text;
