//! Client-side protocol logic for the Casper vector database.
//!
//! The verified core covers the binary search-response decoder, the
//! HTTP error taxonomy, the chunked upload planner, and the message
//! producer that feeds a streaming upload.

pub mod coordinator;
pub mod decimal;
pub mod decoder;
pub mod error;
pub mod models;
pub mod paths;
pub mod planner;
