//! Repository sources: local paths and remote git URLs.
pub mod remote;
pub mod resolved;
pub mod source;
