//! The request lifecycle and the interface state machine of a small
//! text-completion client, kept apart from the window that shows them.

pub mod app;
pub mod json;
pub mod model;
pub mod openai;
pub mod request;
pub mod startup;
