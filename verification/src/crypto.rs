//! Cryptographic identity of a node.

pub mod identity;
