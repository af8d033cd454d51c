//! Tallies a user's recent public activity events by kind.
//!
//! The library decodes a JSON event list into typed records, counts the
//! push, issues and watch events among them, decides what a fetched response
//! leads to, and renders the results as text.
pub mod event;
pub mod json;
pub mod decode;
pub mod summary;
pub mod text;
pub mod response;
