//! Requests about one series of economic data.
pub mod release;
