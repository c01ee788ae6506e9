//! Fetch-and-present core of a news headline reader: request URLs for the
//! news service, decoding of its JSON answers into article records, and the
//! state machine that swaps a freshly fetched list into the display.
pub mod json;
pub mod news_fetcher;
pub mod news_gui;
