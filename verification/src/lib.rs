//! Core of a quick-launch utility: a store of named launch targets is
//! ranked against an incrementally typed query, query parameters are
//! substituted into the chosen target, and a small cache memoizes the
//! icon resolved for each candidate while a background worker performs
//! the actual (platform-specific) lookups.
//!
//! The matching, formatting, parsing and cache logic lives here, fully
//! specified and verified; platform calls (opening files, running
//! commands, resolving icons, reading configuration files) are left to
//! the embedding application.

pub mod cli;
pub mod display;
pub mod entry;
pub mod icon;
pub mod log;
pub mod markdown;
pub mod search_results;
pub mod settings;
pub mod store;
pub mod strutil;
pub mod theme;
pub mod ui;

pub use strutil::format_param;
