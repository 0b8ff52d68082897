//! The runtime services of the core: the per-collection index registry, the
//! rebuild task that pages through a document retriever, the scheduler that
//! drives rebuild passes, and the search service that routes queries.

pub mod doc_details_retriever;
pub mod index_processor;
pub mod index_task;
pub mod indexer_runner;
pub mod search_service_impl;
