//! Core data model: documents, the closed language set, and the closed
//! collection set.

pub mod doc_details;
pub mod entity;
pub mod language;
