//! Work-item cache, refresh planning and edit pipeline of a terminal board client.

pub mod text;
pub mod models;
pub mod cache_keys;
pub mod table;
pub mod shelf;
pub mod cache;
pub mod picker;
pub mod fields;
pub mod edit;
pub mod save;
pub mod markup;
pub mod remote;
pub mod config;
pub mod source;
pub mod metadata;
pub mod refresh;
pub mod refresh_laws;
pub mod app;
pub mod sorted;
pub mod detail;
pub mod keys;
pub mod ui;
