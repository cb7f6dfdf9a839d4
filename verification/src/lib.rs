//! Scraping gateway for a few content sites: cache keys, site addresses,
//! page scraping rules, the JSON answers, and the request handlers as
//! state machines whose outside work (cache, HTTP) the caller performs.

pub mod bindings;
pub mod gateway;
pub mod image_fetch;
pub mod laws;
pub mod links;
pub mod model;
pub mod render;
pub mod scrape;
pub mod text;
