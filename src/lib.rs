//! A terminal manual-page viewer: overstrike decoding, search with
//! auto-scroll, mouse selection over a scrolled document, a listener
//! registry, a debounced section loader and the page navigator.
pub mod args;
pub mod text;
pub mod document;
pub mod listing;
pub mod overstrike;
pub mod manual;
pub mod reader;
pub mod selection;
pub mod events;
pub mod loader;
pub mod viewer;
pub mod reader_page;
pub mod list_page;
pub mod app_state;
pub mod man_page;
