//! Accounts for the Codex CLI: which one is active, and how much of its
//! allowance each has used.
//!
//! The library decides and computes; it reads no file, no variable of the
//! environment and no socket. Callers look at the disk and the network, hand
//! what they found to the functions here, and carry out what these return.
//!
//! * [`types`] holds the data model.
//! * [`auth`] turns an account into the credential document of the Codex
//!   CLI and back, and plans the switch to an account.
//! * [`api`] builds the usage request of an account and reads the reply.
//! * [`http`], [`json`], [`base64url`] and [`clock`] bind the few things
//!   that are taken from other crates. What they state of those crates is
//!   believed, not proved; everything else is proved from it.

pub mod api;
pub mod auth;
pub mod base64url;
pub mod clock;
pub mod http;
pub mod json;
pub mod types;
