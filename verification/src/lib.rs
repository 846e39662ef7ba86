//! Indexing pipeline for a source-code search backend: repository locator
//! resolution, branch detection, file classification, highlight batching,
//! and the insert-vs-append upsert protocol.

pub mod arg;
pub mod git;
pub mod indexer;
pub mod loading;
pub mod parser;
pub mod solr;
pub mod strutil;
pub mod utils;
