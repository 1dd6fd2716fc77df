//! Client-side authentication and capability delegation for an append-only
//! data platform.
//!
//! The crate covers the pure decisions of the client: proving an operator
//! identity by signing a challenge, minting a capability token scoped to one
//! resource, composing the privileged requests, and sequencing the steps that
//! provision a resource and load rows into it. Sending a request and touching
//! the file system are left to the caller, which feeds the outcomes back as
//! events.

pub mod auth;
pub mod capability;
pub mod encoding;
pub mod error;
pub mod gitignore_check;
pub mod record;
pub mod requests;
pub mod rows;
pub mod signing;
pub mod stats;
pub mod tables;
pub mod text;
