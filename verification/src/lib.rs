//! Query shaping and reply routing for the FRED economic data API.
//!
//! The library assembles the optional parameters of a request into one
//! canonical query-string fragment, composes the request address for an
//! endpoint, and routes what came back (a transport failure, a status with a
//! body, a decoded value) into a typed result.
pub mod category;
pub mod client;
pub mod endpoint;
pub mod error;
pub mod query;
pub mod release;
pub mod releases;
pub mod series;
pub mod text;
