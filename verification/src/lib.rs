//! An interactive feed-reader inbox engine.
//!
//! The crate owns the session state of a terminal feed reader: the loaded
//! articles, the active substring filter, the selection and scroll position,
//! and the bookkeeping around a background refresh cycle. Fetching, parsing
//! and rendering live outside; this library holds the logic and its proofs.

pub mod app;
pub mod input;
pub mod layout;
pub mod model;
pub mod rss;
pub mod strings;
