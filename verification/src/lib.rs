//! Remote concatenation of stored objects: keys found in a bucket are matched
//! against a pattern, grouped by the target key they resolve to, and each
//! group is assembled into one multipart upload that is completed or rolled
//! back as a whole.
//!
//! The crate holds the decisions only. The storage calls themselves are made
//! by the caller, which hands every answer back to the [`engine::Engine`].

pub mod engine;
pub mod error;
pub mod guarantees;
pub mod location;
pub mod pattern;
pub mod session;
