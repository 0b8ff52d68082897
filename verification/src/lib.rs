//! Keyword search core: per-language full-text indexes for four document
//! collections, an atomically swappable index registry, the paged rebuild
//! pipeline that refreshes them, and the query construction that turns
//! free-text input into prefix-style lookups.

pub mod config;
pub mod entities;
pub mod errors;
pub mod handlers;
pub mod models;
pub mod services;
pub mod text;
