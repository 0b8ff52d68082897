//! The per-collection row types read from the relational store.

pub mod game;
pub mod movie;
pub mod recipe;
pub mod tv;
