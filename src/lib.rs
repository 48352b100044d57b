//! A client for S3-compatible object stores that does no I/O of its own: it signs the requests
//! of each operation, reads the store's answers into typed results and errors, and drives
//! multipart uploads and paginated listings as state machines whose steps the caller performs.
pub mod bucket;
pub mod builder;
pub mod client;
pub mod error;
pub mod foreign;
pub mod listing;
pub mod multipart;
pub mod request;
pub mod sign;
pub mod text;
