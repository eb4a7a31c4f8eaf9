//! The payloads of the completion service.

pub mod completions;
pub mod error;
