//! Credentials: the document that the Codex CLI reads, and the account that
//! is written into it.

pub mod document;
pub mod switcher;
