//! A keyboard-driven web clipper and bookmark manager: the clip store, tag
//! management, metadata extraction, exports and the terminal UI's logic.
pub mod cli;
pub mod clock;
pub mod commands;
pub mod config;
pub mod models;
pub mod sql;
pub mod text;
pub mod tags;
pub mod query;
pub mod db;
pub mod export;
pub mod fetcher;
pub mod store_laws;
pub mod tui;
