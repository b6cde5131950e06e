//! Fetch-and-normalize core for a repository badge service: builds the
//! upstream resource URL, classifies the HTTP response status, parses the
//! response body as a JSON tree, and extracts a well-typed `Repository`
//! record through total, option-returning accessors.

pub mod error;
pub mod json;
pub mod repo;
