//! Typed client core for a paginated, JSON-based block-explorer HTTP API.
//!
//! The verified core covers pagination validation, endpoint URL
//! construction, response decoding into typed models, and the error
//! taxonomy. Transport (the actual HTTP calls) lives outside the library.

pub mod address;
pub mod decode;
pub mod endpoints;
pub mod engine;
pub mod envelope;
pub mod errors;
pub mod json;
pub mod models;
pub mod network;
pub mod numstr;
pub mod pagination;
pub mod parse;
pub mod urls;
