//! Database access: query text and result processing.
pub mod queries;
