//! Relay layer for moving files between nodes that talk through a
//! message-routing proxy.
//!
//! The crate holds the logic of that relay: filename validation, the
//! naming template, the three-part endpoint identifier, the metadata
//! codec across its two wire forms, the per-file dispatch decisions of
//! the receive side, the bounded receive loop, and the decision made by
//! the authenticated tunnel endpoint.  All of it is verified.  The
//! surrounding I/O (the proxy client, the HTTP server, the filesystem)
//! lives outside this crate and consumes the plans these functions
//! produce.

pub mod config;
pub mod error;
pub mod ident;
pub mod metadata;
pub mod naming;
pub mod receiver;
pub mod sender;
pub mod text;
pub mod tunnel;
