//! Hosting providers: which one a remote belongs to, and the values that
//! describe what it hosts.

pub mod detector;
pub mod github;
pub mod json;
pub mod types;
