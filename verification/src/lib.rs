//! Quorum-gated moderation: a request raised on one chat platform becomes a
//! pending proposal, and takes effect only once enough distinct staff
//! members other than its author have approved it.
//!
//! The crate is the decision core. It never performs I/O: every transition
//! is computed from plain values and handed back as a list of effects for
//! the surrounding process to carry out.

pub mod config;
pub mod domain;
pub mod infra;
pub mod text;
