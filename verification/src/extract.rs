//! The query-string extractor and the extractors' rejection types.

pub mod query;
pub mod rejection;
