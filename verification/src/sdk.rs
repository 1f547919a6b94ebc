//! Helpers for clients of the protocol: the errors they see and the
//! validation of discovery replies.

pub mod client;
pub mod discovery;

pub use client::ClientError;
