//! What the library asks of the ChatGPT backend.

pub mod usage;
