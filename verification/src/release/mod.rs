//! Requests about one release of economic data.
pub mod related_tags;
pub mod sources;
